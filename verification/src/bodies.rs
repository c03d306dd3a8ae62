//! Inferring a function's body, and settling everything it left open.

use vstd::prelude::*;

use crate::ast::{children, Lit, NodeKind};
use crate::bigint::int_fits;
use crate::calls::collect_generic_params;
use crate::def::{
    bound_rhs, def_count, def_in, def_name, dup_defs, get_def, kind_of, node_count, span_of, DefKind,
    ImplInfo, Tables,
};
use crate::diag::{names_closure_const, say, say_name, say_ty, Part};
use crate::facts::{
    ClosureSig, Coercion, DynCoerce, FactsV, GenericArg, Generics, Instantiation, MethodDispatch, MethodRes,
    OpaqueTy, RangeReported, SliceCoerce, StaticTraitSelf, Upcast,
};
use crate::ids::{def_at, node_at, DefId, FileId, NodeId, Span};
use crate::list::{list5, list_len, single, DEPTH_LIMIT, List};
use crate::lower::merge_defs;
use crate::solve::{close_over_projections, get_impl, impl_count};
use crate::subst::{any_mentions, bind_ty, dup_opt_sym, int_parts, mentions, no_subst, Mention};
use crate::symbol::{dup_sym, Symbol};
use crate::table::Table;
use crate::ty::{dup_ty, FloatWidth, Ty};
use crate::types::is_ptr_sized;
use crate::unify::{InferCx, Inferer, InfererV};

verus! {

broadcast use {
    crate::keeping::kept_by_both,
    crate::keeping::kept_by_nothing,
    crate::keeping::loops_stand_on,
    crate::keeping::loops_stand_still,
};

// Whose body it is.

/// [`owns_func`], as a mathematical function.
pub open spec fn owns_func_spec(t: &Tables, file: FileId, func: NodeId, d: DefId) -> bool {
    match crate::def::get_def_spec(t, d) {
        Some(def) => def.kind == DefKind::Func && def.file == Some(file) && match def.node {
            Some(n) => n == func || crate::def::bound_rhs_spec(t, file, n) == func,
            None => false,
        },
        None => false,
    }
}

/// Whether a definition is the function whose body a node holds.
pub fn owns_func(t: &Tables, file: FileId, func: NodeId, d: DefId) -> (r: bool)
    ensures
        r == owns_func_spec(t, file, func, d),
{
    match get_def(t, d) {
        Some(def) => def.kind == DefKind::Func && def.file == Some(file) && match def.node {
            Some(n) => n == func || bound_rhs(t, file, n) == func,
            None => false,
        },
        None => false,
    }
}

/// The first definition, from a position on, whose body a node holds.
pub open spec fn owner_from(t: &Tables, file: FileId, func: NodeId, i: u64) -> Option<DefId>
    decreases crate::def::def_count_spec(t) - i,
{
    if i < crate::def::def_count_spec(t) {
        if owns_func_spec(t, file, func, crate::ids::def_at_spec(i)) {
            Some(crate::ids::def_at_spec(i))
        } else {
            owner_from(t, file, func, (i + 1) as u64)
        }
    } else {
        None
    }
}

/// [`owner_of`], as a mathematical function.
pub open spec fn owner_of_spec(t: &Tables, file: FileId, func: NodeId) -> Option<DefId> {
    owner_from(t, file, func, 0)
}

/// The definition whose body a node holds, where one owns it: a closure is
/// written inside whatever body already owns it.
pub fn owner_of(t: &Tables, file: FileId, func: NodeId) -> (r: Option<DefId>)
    ensures
        r == owner_of_spec(t, file, func),
{
    let n = def_count(t);
    let mut i: u64 = 0;
    while i < n
        invariant
            n == crate::def::def_count_spec(t),
            owner_of_spec(t, file, func) == owner_from(t, file, func, i),
        decreases n - i,
    {
        if owns_func(t, file, func, def_at(i)) {
            return Some(def_at(i));
        }
        i = i + 1;
    }
    None
}

/// [`Inferer::func_owner`], as a mathematical function.
pub open spec fn func_owner_spec(st: InfererV, env: &InferCx, func: NodeId) -> Option<DefId> {
    owner_of_spec(env.tables, st.file, func)
}

// What a function is generic over.

/// [`holds_member`], as a mathematical function.
pub open spec fn holds_member_spec(l: &List<(Symbol, DefId)>, d: DefId) -> bool
    decreases l,
{
    match l {
        List::Nil => false,
        List::Cons(h, t) => h.1 == d || holds_member_spec(t, d),
    }
}

/// Whether a list of members holds a definition.
pub fn holds_member(l: &List<(Symbol, DefId)>, d: DefId) -> (r: bool)
    ensures
        r == holds_member_spec(l, d),
    decreases l,
{
    match l {
        List::Nil => false,
        List::Cons(h, t) => h.1 == d || holds_member(t, d),
    }
}

/// The first impl, from a position on, with a member.
pub open spec fn owning_impl_from<'a>(cx: &InferCx<'a>, d: DefId, i: u64) -> Option<&'a ImplInfo>
    decreases crate::solve::impl_count_spec(cx) - i,
{
    if i < crate::solve::impl_count_spec(cx) {
        match crate::solve::get_impl_spec(cx, i) {
            Some(imp) => if holds_member_spec(&imp.members, d) {
                Some(imp)
            } else {
                owning_impl_from(cx, d, (i + 1) as u64)
            },
            None => None,
        }
    } else {
        None
    }
}

/// [`owning_impl`], as a mathematical function.
pub open spec fn owning_impl_spec<'a>(cx: &InferCx<'a>, d: DefId) -> Option<&'a ImplInfo> {
    owning_impl_from(cx, d, 0)
}

/// The impl a definition is a member of.
pub fn owning_impl<'a>(cx: &InferCx<'a>, d: DefId) -> (r: Option<&'a ImplInfo>)
    ensures
        r == owning_impl_spec(cx, d),
{
    let n = impl_count(cx);
    let mut i: u64 = 0;
    while i < n
        invariant
            n == crate::solve::impl_count_spec(cx),
            owning_impl_spec(cx, d) == owning_impl_from(cx, d, i),
        decreases n - i,
    {
        match get_impl(cx, i) {
            Some(imp) => {
                if holds_member(&imp.members, d) {
                    return Some(imp);
                }
            },
            None => {
                return None;
            },
        }
        i = i + 1;
    }
    None
}

/// [`impl_generics_of`], as a mathematical function.
pub open spec fn impl_generics_of_spec(cx: &InferCx, owner: Option<DefId>) -> List<DefId> {
    match owner {
        Some(d) => match owning_impl_spec(cx, d) {
            Some(imp) => imp.generics,
            None => List::Nil,
        },
        None => List::Nil,
    }
}

/// The generics of the impl a function is a member of.
pub fn impl_generics_of(cx: &InferCx, owner: Option<DefId>) -> (r: List<DefId>)
    ensures
        r == impl_generics_of_spec(cx, owner),
{
    match owner {
        Some(d) => match owning_impl(cx, d) {
            Some(imp) => dup_defs(&imp.generics),
            None => List::Nil,
        },
        None => List::Nil,
    }
}

/// [`Inferer::generics_of_func`], as a mathematical function.
pub open spec fn generics_of_func_spec(
    st: InfererV,
    env: &InferCx,
    func: NodeId,
) -> (InfererV, Option<Generics>) {
    match crate::def::kind_of_spec(env.tables, st.file, func) {
        Some(NodeKind::FuncExpr { generics, params: _, ret: _, body: _, abi: _ }) => {
            let own = crate::decls::generic_defs_spec(st, env, st.file, generics);
            let (st, sig) = crate::types::inferred_sig_ty_spec(st, env, func);
            let (tys, consts) = crate::calls::collect_generic_params_spec(
                env.tables,
                &sig,
                List::Nil,
                List::Nil,
            );
            let named = crate::lower::merge_defs_spec(crate::lower::merge_defs_spec(own, &tys), &consts);
            let all = crate::lower::merge_defs_spec(
                named,
                &impl_generics_of_spec(env, func_owner_spec(st, env, func)),
            );
            (
                st,
                Some(
                    Generics {
                        params: crate::solve::close_over_projections_spec(env.tables, all, 0, DEPTH_LIMIT),
                        own: crate::list::list_len_spec(&own),
                    },
                ),
            )
        },
        _ => (st, None),
    }
}

/// [`Inferer::stamp_generics`], as a mathematical function.
pub open spec fn stamp_generics_spec(st: InfererV, env: &InferCx, func: NodeId) -> InfererV {
    let (st, found) = generics_of_func_spec(st, env, func);
    match found {
        Some(g) => {
            let st = crate::unify::set_generics_spec(st, st.file, func, g);
            st
        },
        None => {
            st
        },
    }
}

// Bodies.

/// [`stacked`], as a mathematical function.
pub open spec fn stacked_spec(l: &List<NodeId>, stack: List<NodeId>) -> List<NodeId>
    decreases l,
{
    match l {
        List::Nil => stack,
        List::Cons(h, t) => stacked_spec(t, List::Cons(*h, Box::new(stack))),
    }
}

/// The nodes of a stack with those of a list on top, the last of them topmost.
pub fn stacked(l: &List<NodeId>, stack: List<NodeId>) -> (r: List<NodeId>)
    ensures
        r == stacked_spec(l, stack),
    decreases l,
{
    match l {
        List::Nil => stack,
        List::Cons(h, t) => stacked(t, List::Cons(*h, Box::new(stack))),
    }
}

/// [`parts_of`], as a mathematical function.
pub open spec fn parts_of_spec(t: &Tables, file: FileId, node: NodeId) -> List<NodeId> {
    match crate::def::kind_of_spec(t, file, node) {
        Some(k) => crate::ast::children_spec(k),
        None => List::Nil,
    }
}

/// The parts of a node.
pub fn parts_of(t: &Tables, file: FileId, node: NodeId) -> (r: List<NodeId>)
    ensures
        r == parts_of_spec(t, file, node),
{
    match kind_of(t, file, node) {
        Some(k) => children(k),
        None => List::Nil,
    }
}

/// [`Inferer::reject_param_refs_in_default`], as a mathematical function.
pub open spec fn reject_param_refs_in_default_spec(
    st: InfererV,
    env: &InferCx,
    stack: List<NodeId>,
    params: &List<DefId>,
    fuel: u64,
) -> InfererV
    decreases fuel,
{
    if fuel == 0 {
        crate::unify::give_up_spec(st)
    } else {
        match stack {
            List::Nil => {
                st
            },
            List::Cons(n, rest) => {
                let named = match crate::decls::resolved_def_spec(st, env, n) {
                    Some(d) => if crate::def::def_in_spec(params, d) {
                        Some(d)
                    } else {
                        None
                    },
                    None => None,
                };
                match named {
                    Some(d) => {
                        let st = crate::unify::report_spec(
                            st,
                            env,
                            n,
                            crate::diag::say_name_spec(
                                "a default argument cannot name the parameter `",
                                &crate::def::def_name_spec(env.tables, d),
                                "`: it is evaluated at the call site, where no parameter of this function exists yet",
                            ),
                        );
                        st
                    },
                    None => {
                        let st = reject_param_refs_in_default_spec(
                            st,
                            env,
                            stacked_spec(&parts_of_spec(env.tables, st.file, n), *rest),
                            params,
                            (fuel - 1) as u64,
                        );
                        st
                    },
                }
            },
        }
    }
}

/// [`Inferer::defs_of`], as a mathematical function.
pub open spec fn defs_of_spec(st: InfererV, l: &List<NodeId>) -> List<DefId>
    decreases l,
{
    match l {
        List::Nil => List::Nil,
        List::Cons(h, t) => match crate::decls::def_of_spec(st, *h) {
            Some(d) => List::Cons(d, Box::new(defs_of_spec(st, t))),
            None => defs_of_spec(st, t),
        },
    }
}

/// [`Inferer::infer_params`], as a mathematical function.
pub open spec fn infer_params_spec(
    st: InfererV,
    env: &InferCx,
    l: &List<NodeId>,
    all: &List<DefId>,
    defaulted: Option<Symbol>,
    fuel: u64,
) -> InfererV
    decreases fuel, l,
{
    if fuel == 0 {
        crate::unify::give_up_spec(st)
    } else {
        match l {
            List::Nil => {
                st
            },
            List::Cons(p, rest) => match crate::def::kind_of_spec(env.tables, st.file, *p) {
                Some(NodeKind::Param { name, ty, default }) => {
                    let (st, pty) = match ty {
                        Some(t) => crate::types::ty_from_node_spec(st, env, *t, (fuel - 1) as u64),
                        None => crate::unify::fresh_spec(st),
                    };
                    let next = if default.is_some() {
                        Some((*name))
                    } else {
                        defaulted
                    };
                    let st = match (default, &defaulted) {
                        (None, Some(prev)) => {
                            let st = crate::unify::report_spec(
                                st,
                                env,
                                *p,
                                crate::list::list5_spec(
                                    Part::Text("parameter `"),
                                    Part::Name((*name)),
                                    Part::Text("` has no default but follows `"),
                                    Part::Name((*prev)),
                                    Part::Text(
                                        "`, which does — every parameter after a defaulted one must be defaulted too",
                                    ),
                                ),
                            );
                            st
                        },
                        _ => {
                            st
                        },
                    };
                    let st = match default {
                        Some(d) => {
                            let st = infer_default_spec(st, env, *d, all, &pty, (fuel - 1) as u64);
                            st
                        },
                        None => {
                            st
                        },
                    };
                    let st = crate::coerce::bind_name_spec(st, *p, &pty);
                    let st = crate::unify::set_type_spec(st, *p, pty);
                    let st = infer_params_spec(st, env, rest, all, next, fuel);
                    st
                },
                _ => {
                    let st = infer_params_spec(st, env, rest, all, defaulted, fuel);
                    st
                },
            },
        }
    }
}

/// [`Inferer::infer_default`], as a mathematical function.
pub open spec fn infer_default_spec(
    st: InfererV,
    env: &InferCx,
    d: NodeId,
    params: &List<DefId>,
    want: &Ty,
    fuel: u64,
) -> InfererV
    decreases fuel,
{
    if fuel == 0 {
        crate::unify::give_up_spec(st)
    } else {
        let st = reject_param_refs_in_default_spec(
            st,
            env,
            crate::list::single_spec(d),
            params,
            (fuel - 1) as u64,
        );
        let outer = st.in_default;
        let st = InfererV { in_default: true, ..st };
        let (st, got) = crate::exprs::infer_expr_spec(st, env, d, (fuel - 1) as u64);
        let st = InfererV { in_default: outer, ..st };
        let st = crate::coerce::expect_spec(st, env, d, &got, want, (fuel - 1) as u64);
        st
    }
}

/// [`opaque_slot`], as a mathematical function.
pub open spec fn opaque_slot_spec(t: &Tables, file: FileId, ret: Option<NodeId>) -> Option<NodeId> {
    match ret {
        Some(r) => match crate::def::kind_of_spec(t, file, r) {
            Some(NodeKind::GenericTypeParam { .. }) => Some(r),
            _ => None,
        },
        None => None,
    }
}

/// An `impl` return type's slot, where a function has one.
pub fn opaque_slot(t: &Tables, file: FileId, ret: Option<NodeId>) -> (r: Option<NodeId>)
    ensures
        r == opaque_slot_spec(t, file, ret),
{
    match ret {
        Some(r) => match kind_of(t, file, r) {
            Some(NodeKind::GenericTypeParam { .. }) => Some(r),
            _ => None,
        },
        None => None,
    }
}

/// [`Inferer::reveal_opaque`], as a mathematical function.
pub open spec fn reveal_opaque_spec(st: InfererV, env: &InferCx, ret: NodeId, concrete: &Ty) -> InfererV {
    match crate::decls::def_of_spec(st, ret) {
        Some(def) => {
            let st = crate::solve::register_bounds_spec(
                st,
                env,
                ret,
                &crate::list::single_spec(def),
                &crate::subst::bind_ty_spec(crate::subst::no_subst_spec(), def, (*concrete)),
                DEPTH_LIMIT,
            );
            let st = crate::unify::set_opaque_ty_spec(st, st.file, ret, OpaqueTy((*concrete)));
            st
        },
        None => {
            st
        },
    }
}

/// [`Inferer::infer_func`], as a mathematical function.
pub open spec fn infer_func_spec(st: InfererV, env: &InferCx, func: NodeId) -> InfererV {
    match crate::def::kind_of_spec(env.tables, st.file, func) {
        Some(NodeKind::FuncExpr { generics: _, params, ret, body, abi: _ }) => {
            let outer = st.ctx;
            let outer_func = st.func;
            let st = match func_owner_spec(st, env, func) {
                Some(def) => {
                    let st = InfererV { ctx: Some(def), ..st };
                    st
                },
                None => {
                    st
                },
            };
            let st = InfererV { func: Some(func), ..st };
            let st = infer_params_spec(st, env, params, &defs_of_spec(st, params), None, DEPTH_LIMIT);
            let (st, declared) = match ret {
                Some(t) => crate::types::ty_from_node_spec(st, env, *t, DEPTH_LIMIT),
                None => (st, Ty::Void),
            };
            let opaque = opaque_slot_spec(env.tables, st.file, *ret);
            let (st, ret_ty) = match opaque {
                Some(_) => crate::unify::fresh_spec(st),
                None => (st, declared),
            };
            let st = InfererV { ret: ret_ty, ..st };
            let st = crate::unify::set_type_spec(st, func, declared);
            let st = match body {
                Some(b) => {
                    let (st, bty) = crate::exprs::infer_expr_spec(st, env, *b, DEPTH_LIMIT);
                    let st = crate::coerce::expect_return_spec(st, env, *b, &bty, &ret_ty, DEPTH_LIMIT);
                    st
                },
                None => {
                    st
                },
            };
            let st = match opaque {
                Some(r) => {
                    let st = reveal_opaque_spec(st, env, r, &ret_ty);
                    st
                },
                None => {
                    st
                },
            };
            let st = stamp_generics_spec(st, env, func);
            let st = InfererV { ctx: outer, ..st };
            let st = InfererV { func: outer_func, ..st };
            st
        },
        _ => {
            st
        },
    }
}

// Settling.

/// Whether every type recorded since holds no variable, and none went missing.
pub open spec fn types_settle(before: Map<u64, Ty>, after: Map<u64, Ty>) -> bool {
    &&& forall|k: u64| before.dom().contains(k) ==> #[trigger] after.dom().contains(k)
    &&& forall|k: u64|
        after.dom().contains(k) ==> (before.dom().contains(k) && before[k] == #[trigger] after[k])
            || crate::unify::settled(&after[k])
}

/// Whether two maps agree at every key but one.
pub open spec fn same_but<T>(before: Map<u64, T>, after: Map<u64, T>, key: u64) -> bool {
    forall|k: u64|
        k != key ==> (#[trigger] after.dom().contains(k) <==> before.dom().contains(k))
            && (before.dom().contains(k)
            ==> before[k] == after[k])
}

/// Whether an `@using` coercion holds no variable.
pub open spec fn upcast_settled(f: FactsV, k: u64) -> bool {
    f.upcast.dom().contains(k) ==> crate::unify::settled(&f.upcast[k].target)
}

/// Whether the trait arguments a dispatch carries hold no variable.
pub open spec fn dispatch_settled(d: &MethodDispatch) -> bool {
    match d {
        MethodDispatch::Generic { trait_def: _, args } => crate::unify::all_settled(args),
        _ => true,
    }
}

/// Whether a resolved method call holds no variable.
pub open spec fn method_res_settled(f: FactsV, k: u64) -> bool {
    f.method_res.dom().contains(k) ==> crate::unify::settled(&f.method_res[k].self_ty) && dispatch_settled(
        &f.method_res[k].dispatch,
    )
}

/// Whether a static trait call holds no variable.
pub open spec fn static_trait_self_settled(f: FactsV, k: u64) -> bool {
    f.static_trait_self.dom().contains(k) ==> crate::unify::settled(&f.static_trait_self[k].self_ty)
        && crate::unify::all_settled(&f.static_trait_self[k].trait_args)
}

/// Whether an unsizing holds no variable.
pub open spec fn dyn_coerce_settled(f: FactsV, k: u64) -> bool {
    f.dyn_coerce.dom().contains(k) ==> crate::unify::settled(&f.dyn_coerce[k].concrete)
        && crate::unify::settled(
        &f.dyn_coerce[k].object,
    )
}

/// Whether an `impl` return type holds no variable.
pub open spec fn opaque_ty_settled(f: FactsV, k: u64) -> bool {
    f.opaque_ty.dom().contains(k) ==> crate::unify::settled(&f.opaque_ty[k].0)
}

/// Whether a closure's signature holds no variable.
pub open spec fn closure_sig_settled(f: FactsV, k: u64) -> bool {
    f.closure_sig.dom().contains(k) ==> crate::unify::all_settled(&f.closure_sig[k].params)
        && crate::unify::settled(
        &f.closure_sig[k].ret,
    ) && crate::unify::all_settled(&f.closure_sig[k].shared)
}

/// Whether a view of an array holds no variable.
pub open spec fn slice_coerce_settled(f: FactsV, k: u64) -> bool {
    f.slice_coerce.dom().contains(k) ==> crate::unify::settled(&f.slice_coerce[k].to)
        && crate::unify::settled(
        &f.slice_coerce[k].range,
    )
}

/// Whether none of a list of generic arguments holds a variable.
pub open spec fn args_settled(l: &List<GenericArg>) -> bool
    decreases l,
{
    match l {
        List::Nil => true,
        List::Cons(h, t) => (match h {
            GenericArg::Ty(ty) => crate::unify::settled(ty),
            GenericArg::Const(c) => !crate::subst::const_mentions_spec(c, Mention::Var),
        }) && args_settled(t),
    }
}

/// Whether a call's generic arguments holds no variable.
pub open spec fn instantiation_settled(f: FactsV, k: u64) -> bool {
    f.instantiation.dom().contains(k) ==> args_settled(&f.instantiation[k].0)
}

/// Whether no fact a later stage reads types from holds a variable at a key.
#[verifier::opaque]
pub open spec fn facts_settled(f: FactsV, k: u64) -> bool {
    &&& upcast_settled(f, k)
    &&& method_res_settled(f, k)
    &&& static_trait_self_settled(f, k)
    &&& dyn_coerce_settled(f, k)
    &&& opaque_ty_settled(f, k)
    &&& closure_sig_settled(f, k)
    &&& slice_coerce_settled(f, k)
    &&& instantiation_settled(f, k)
}

/// Whether that holds of a run of the nodes of the file being inferred.
pub open spec fn nodes_settled(st: InfererV, i: u64, n: u64) -> bool {
    forall|j: u64|
        i <= j < n ==> #[trigger] facts_settled(
            st.facts,
            crate::ids::node_key_spec(st.file, crate::ids::node_at_spec(j)),
        )
}

/// [`unsigned_bits`], as a mathematical function.
pub open spec fn unsigned_bits_spec(bits: u64) -> u64 {
    if bits >= 0x8000_0000_0000_0000 {
        (bits - 0x8000_0000_0000_0000) as u64
    } else {
        bits
    }
}

/// The bits of a double without its sign.
pub fn unsigned_bits(bits: u64) -> (r: u64)
    ensures
        r == unsigned_bits_spec(bits),
{
    if bits >= 0x8000_0000_0000_0000 {
        (bits - 0x8000_0000_0000_0000) as u64
    } else {
        bits
    }
}

/// [`float_fits`], as a mathematical function.
pub open spec fn float_fits_spec(bits: u64, width: FloatWidth) -> bool {
    let m = unsigned_bits_spec(bits);
    match width {
        FloatWidth::F16 => m == 0 || (m > 0x3e60_0000_0000_0000 && m < 0x40ef_fe00_0000_0000),
        FloatWidth::F32 => m == 0 || (m > 0x3690_0000_0000_0000 && m < 0x47ef_ffff_f000_0000),
        _ => m < 0x7ff0_0000_0000_0000,
    }
}

/// Whether a double, by its bits, still is a number once it is rounded to a
/// width: not an infinity, nor a zero that it was not before. The order of the
/// magnitudes is the order of the bits.
pub fn float_fits(bits: u64, width: FloatWidth) -> (r: bool)
    ensures
        r == float_fits_spec(bits, width),
{
    let m = unsigned_bits(bits);
    match width {
        FloatWidth::F16 => m == 0 || (m > 0x3e60_0000_0000_0000 && m < 0x40ef_fe00_0000_0000),
        FloatWidth::F32 => m == 0 || (m > 0x3690_0000_0000_0000 && m < 0x47ef_ffff_f000_0000),
        _ => m < 0x7ff0_0000_0000_0000,
    }
}

/// [`Inferer::check_float_width`], as a mathematical function.
pub open spec fn check_float_width_spec(
    st: InfererV,
    env: &InferCx,
    node: NodeId,
    resolved: &Ty,
) -> InfererV {
    match (crate::unify::get_wide_float_spec(st, st.file, node), resolved) {
        (Some(_), Ty::Float(w)) => match w {
            FloatWidth::F80 => {
                st
            },
            FloatWidth::F128 => {
                st
            },
            _ => {
                let st = crate::unify::report_spec(
                    st,
                    env,
                    node,
                    crate::diag::say_ty_spec(
                        "float literal is too large or too precise for `",
                        (*resolved),
                        "`; annotate it as `f80` or `f128`",
                    ),
                );
                st
            },
        },
        _ => {
            st
        },
    }
}

/// [`Inferer::check_int_range`], as a mathematical function.
pub open spec fn check_int_range_spec(st: InfererV, env: &InferCx, node: NodeId, resolved: &Ty) -> InfererV {
    match crate::unify::get_int_spec(st, node) {
        Some(value) => match crate::subst::int_parts_spec(&crate::unify::numeric_repr_spec(st, resolved)) {
            Some((signed, bits)) => {
                if !crate::bigint::int_fits_spec(&value, signed, bits) {
                    let st = crate::unify::report_spec(
                        st,
                        env,
                        node,
                        crate::list::list5_spec(
                            Part::Text("the literal `"),
                            Part::Int(value),
                            Part::Text("` does not fit in `"),
                            Part::Ty((*resolved)),
                            Part::Text("`"),
                        ),
                    );
                    let st = crate::unify::set_range_reported_spec(st, st.file, node, RangeReported);
                    st
                } else {
                    st
                }
            },
            None => {
                st
            },
        },
        None => {
            st
        },
    }
}

/// [`Inferer::check_float_range`], as a mathematical function.
pub open spec fn check_float_range_spec(
    st: InfererV,
    env: &InferCx,
    node: NodeId,
    resolved: &Ty,
) -> InfererV {
    match (crate::unify::get_float_spec(st, node), crate::unify::numeric_repr_spec(st, resolved)) {
        (Some(value), Ty::Float(width)) => {
            if !float_fits_spec(value, width) {
                let st = crate::unify::report_spec(
                    st,
                    env,
                    node,
                    crate::list::list5_spec(
                        Part::Text("the literal `"),
                        Part::Float(value),
                        Part::Text("` does not fit in `"),
                        Part::Ty((*resolved)),
                        Part::Text("`"),
                    ),
                );
                let st = crate::unify::set_range_reported_spec(st, st.file, node, RangeReported);
                st
            } else {
                st
            }
        },
        _ => {
            st
        },
    }
}

/// [`comptime_of`], as a mathematical function.
pub open spec fn comptime_of_spec(k: Option<&NodeKind>) -> Option<Ty> {
    match k {
        Some(NodeKind::Lit(Lit::Int(_))) => Some(Ty::ComptimeInt),
        Some(NodeKind::Lit(Lit::Float(_))) => Some(Ty::ComptimeFloat),
        Some(NodeKind::Lit(Lit::Str(_))) => Some(Ty::ComptimeStr),
        _ => None,
    }
}

/// The type a literal has before it is converted.
pub fn comptime_of(k: Option<&NodeKind>) -> (r: Option<Ty>)
    ensures
        r == comptime_of_spec(k),
{
    match k {
        Some(NodeKind::Lit(Lit::Int(_))) => Some(Ty::ComptimeInt),
        Some(NodeKind::Lit(Lit::Float(_))) => Some(Ty::ComptimeFloat),
        Some(NodeKind::Lit(Lit::Str(_))) => Some(Ty::ComptimeStr),
        _ => None,
    }
}

/// [`is_number_ty`], as a mathematical function.
pub open spec fn is_number_ty_spec(t: &Tables, ty: &Ty) -> bool {
    match ty {
        Ty::Int { .. } => true,
        Ty::Float(_) => true,
        _ => crate::types::is_ptr_sized_spec(t, ty),
    }
}

/// Whether a type is a number the language itself knows.
pub fn is_number_ty(t: &Tables, ty: &Ty) -> (r: bool)
    ensures
        r == is_number_ty_spec(t, ty),
{
    match ty {
        Ty::Int { .. } => true,
        Ty::Float(_) => true,
        _ => is_ptr_sized(t, ty),
    }
}

/// [`Inferer::record_comptime_coercion`], as a mathematical function.
pub open spec fn record_comptime_coercion_spec(
    st: InfererV,
    env: &InferCx,
    node: NodeId,
    resolved: Ty,
) -> (InfererV, Ty) {
    match comptime_of_spec(crate::def::kind_of_spec(env.tables, st.file, node)) {
        Some(comptime) => {
            let converts = match &comptime {
                Ty::ComptimeStr => crate::unify::admits_str_spec(st, &resolved),
                _ => is_number_ty_spec(env.tables, &resolved),
            };
            if converts {
                let st = crate::unify::set_coercion_spec(st, st.file, node, Coercion { to: resolved });
                (st, comptime)
            } else {
                (st, resolved)
            }
        },
        None => (st, resolved),
    }
}

/// [`Inferer::finish_node`], as a mathematical function.
pub open spec fn finish_node_spec(st: InfererV, env: &InferCx, i: u64) -> InfererV {
    let node = crate::ids::node_at_spec(i);
    match crate::unify::get_type_spec(st, node) {
        Some(ty) => {
            let (st, (resolved, open)) = crate::unify::finalize_spec(st, &ty, DEPTH_LIMIT);
            let st = if open {
                let st = crate::unify::report_spec(
                    st,
                    env,
                    node,
                    crate::diag::say_spec("type annotations needed"),
                );
                st
            } else {
                st
            };
            let st = check_float_width_spec(st, env, node, &resolved);
            let st = check_int_range_spec(st, env, node, &resolved);
            let st = check_float_range_spec(st, env, node, &resolved);
            let (st, recorded) = record_comptime_coercion_spec(st, env, node, resolved);
            let st = crate::unify::set_ty_spec(st, st.file, node, recorded);
            st
        },
        None => {
            st
        },
    }
}

/// [`Inferer::finish_nodes`], as a mathematical function.
pub open spec fn finish_nodes_spec(st: InfererV, env: &InferCx, i: u64, n: u64) -> InfererV
    decreases n - i,
{
    if i < n {
        let st = finish_node_spec(st, env, i);
        let st = finish_nodes_spec(st, env, (i + 1) as u64, n);
        st
    } else {
        st
    }
}

/// Forget what was inferred of the nodes.
pub open spec fn clear_types_spec(st: InfererV) -> InfererV {
    InfererV { types: Map::empty(), ..st }
}

/// [`Inferer::finish`], as a mathematical function.
pub open spec fn finish_spec(st: InfererV, env: &InferCx) -> InfererV {
    let st = crate::solve::solve_to_fixpoint_spec(st, env, DEPTH_LIMIT);
    let (st, leftover) = crate::unify::take_obligations_spec(st);
    let st = crate::solve::report_each_unsolved_spec(st, env, &leftover, DEPTH_LIMIT);
    let st = finish_nodes_spec(st, env, 0, crate::def::node_count_spec(env.tables, st.file));
    let st = clear_types_spec(st);
    let st = finalize_metas_spec(st, env, 0, crate::def::node_count_spec(env.tables, st.file));
    st
}

/// [`Inferer::finalize_metas`], as a mathematical function.
pub open spec fn finalize_metas_spec(st: InfererV, env: &InferCx, i: u64, n: u64) -> InfererV
    decreases n - i,
{
    if i < n {
        let st = finalize_node_spec(st, env, i);
        let st = finalize_metas_spec(st, env, (i + 1) as u64, n);
        st
    } else {
        st
    }
}

/// [`Inferer::finalize_node`], as a mathematical function.
pub open spec fn finalize_node_spec(st: InfererV, env: &InferCx, i: u64) -> InfererV {
    let node = crate::ids::node_at_spec(i);
    let st = finalize_upcast_spec(st, node);
    let st = finalize_method_spec(st, node);
    let st = finalize_static_self_spec(st, node);
    let st = finalize_dyn_spec(st, node);
    let st = finalize_opaque_spec(st, node);
    let st = finalize_closure_spec(st, env, node);
    let st = finalize_slice_spec(st, node);
    let st = finalize_instantiation_spec(st, node);
    st
}

/// [`Inferer::finalize_upcast`], as a mathematical function.
pub open spec fn finalize_upcast_spec(st: InfererV, node: NodeId) -> InfererV {
    match crate::unify::get_upcast_spec(st, st.file, node) {
        Some(up) => {
            let (st, target) = crate::unify::finalized_spec(st, &up.target);
            let st = crate::unify::set_upcast_spec(
                st,
                st.file,
                node,
                Upcast { field: up.field, through_ptr: up.through_ptr, target: target },
            );
            st
        },
        None => {
            st
        },
    }
}

/// [`Inferer::finalized_dispatch`], as a mathematical function.
pub open spec fn finalized_dispatch_spec(st: InfererV, d: MethodDispatch) -> (InfererV, MethodDispatch) {
    match d {
        MethodDispatch::Generic { trait_def, args } => {
            let (st, args) = crate::unify::finalized_tys_spec(st, &args);
            (st, MethodDispatch::Generic { trait_def: trait_def, args: args })
        },
        MethodDispatch::Static => (st, MethodDispatch::Static),
        MethodDispatch::Virtual(t) => (st, MethodDispatch::Virtual(t)),
    }
}

/// [`Inferer::finalize_method`], as a mathematical function.
pub open spec fn finalize_method_spec(st: InfererV, node: NodeId) -> InfererV {
    match crate::unify::get_method_res_spec(st, st.file, node) {
        Some(m) => {
            let (st, self_ty) = crate::unify::finalized_spec(st, &m.self_ty);
            let (st, dispatch) = finalized_dispatch_spec(st, m.dispatch);
            let st = crate::unify::set_method_res_spec(
                st,
                st.file,
                node,
                MethodRes { method: m.method, dispatch: dispatch, adjust: m.adjust, self_ty: self_ty },
            );
            st
        },
        None => {
            st
        },
    }
}

/// [`Inferer::finalize_static_self`], as a mathematical function.
pub open spec fn finalize_static_self_spec(st: InfererV, node: NodeId) -> InfererV {
    match crate::unify::get_static_trait_self_spec(st, st.file, node) {
        Some(s) => {
            let (st, self_ty) = crate::unify::finalized_spec(st, &s.self_ty);
            let (st, trait_args) = crate::unify::finalized_tys_spec(st, &s.trait_args);
            let st = crate::unify::set_static_trait_self_spec(
                st,
                st.file,
                node,
                StaticTraitSelf { trait_def: s.trait_def, self_ty: self_ty, trait_args: trait_args },
            );
            st
        },
        None => {
            st
        },
    }
}

/// [`Inferer::finalize_dyn`], as a mathematical function.
pub open spec fn finalize_dyn_spec(st: InfererV, node: NodeId) -> InfererV {
    match crate::unify::get_dyn_coerce_spec(st, st.file, node) {
        Some(d) => {
            let (st, concrete) = crate::unify::finalized_spec(st, &d.concrete);
            let (st, object) = crate::unify::finalized_spec(st, &d.object);
            let st = crate::unify::set_dyn_coerce_spec(
                st,
                st.file,
                node,
                DynCoerce { trait_def: d.trait_def, object: object, concrete: concrete },
            );
            st
        },
        None => {
            st
        },
    }
}

/// [`Inferer::finalize_opaque`], as a mathematical function.
pub open spec fn finalize_opaque_spec(st: InfererV, node: NodeId) -> InfererV {
    match crate::unify::get_opaque_ty_spec(st, st.file, node) {
        Some(o) => {
            let (st, t) = crate::unify::finalized_spec(st, &o.0);
            let st = crate::unify::set_opaque_ty_spec(st, st.file, node, OpaqueTy(t));
            st
        },
        None => {
            st
        },
    }
}

/// Whether a closure at a place was already said to name a `const` parameter.
pub open spec fn said_of_closure_spec(st: InfererV, file: FileId, span: Span) -> bool {
    exists|i: int|
        0 <= i < st.diags.len() && crate::diag::names_closure_const_spec(&(#[trigger] st.diags[i]).message)
            && st.diags[i].file == file && st.diags[i].span == span
}

/// [`Inferer::finalize_closure`], as a mathematical function.
pub open spec fn finalize_closure_spec(st: InfererV, env: &InferCx, node: NodeId) -> InfererV {
    match crate::unify::get_closure_sig_spec(st, st.file, node) {
        Some(sig) => {
            let (st, params) = crate::unify::finalized_tys_spec(st, &sig.params);
            let (st, ret) = crate::unify::finalized_spec(st, &sig.ret);
            let (st, shared) = crate::unify::finalized_tys_spec(st, &sig.shared);
            let (_at, span) = crate::def::span_of_spec(env.tables, st.file, node);
            let said = said_of_closure_spec(st, st.file, span);
            let names = crate::subst::any_mentions_spec(&params, Mention::ConstParam)
                || crate::subst::mentions_spec(&ret, Mention::ConstParam)
                || crate::subst::any_mentions_spec(&shared, Mention::ConstParam);
            let st = if !said && names {
                let st = crate::unify::report_spec(
                    st,
                    env,
                    node,
                    crate::list::single_spec(Part::ClosureNamesConst),
                );
                st
            } else {
                st
            };
            let st = crate::unify::set_closure_sig_spec(
                st,
                st.file,
                node,
                ClosureSig { params: params, ret: ret, generics: sig.generics, shared: shared },
            );
            st
        },
        None => {
            st
        },
    }
}

/// [`Inferer::finalize_slice`], as a mathematical function.
pub open spec fn finalize_slice_spec(st: InfererV, node: NodeId) -> InfererV {
    match crate::unify::get_slice_coerce_spec(st, st.file, node) {
        Some(s) => {
            let (st, to) = crate::unify::finalized_spec(st, &s.to);
            let (st, range) = crate::unify::finalized_spec(st, &s.range);
            let st = crate::unify::set_slice_coerce_spec(
                st,
                st.file,
                node,
                SliceCoerce { to: to, range: range },
            );
            st
        },
        None => {
            st
        },
    }
}

/// [`Inferer::finalized_args`], as a mathematical function.
pub open spec fn finalized_args_spec(st: InfererV, l: &List<GenericArg>) -> (InfererV, List<GenericArg>)
    decreases l,
{
    match l {
        List::Nil => (st, List::Nil),
        List::Cons(h, t) => {
            let (st, first) = match h {
                GenericArg::Ty(ty) => {
                    let (st, ty) = crate::unify::finalized_spec(st, ty);
                    (st, GenericArg::Ty(ty))
                },
                GenericArg::Const(k) => {
                    let (st, (k, _open)) = crate::unify::finalize_const_spec(st, k);
                    (st, GenericArg::Const(k))
                },
            };
            let (st, rest) = finalized_args_spec(st, t);
            (st, List::Cons(first, Box::new(rest)))
        },
    }
}

/// [`Inferer::finalize_instantiation`], as a mathematical function.
pub open spec fn finalize_instantiation_spec(st: InfererV, node: NodeId) -> InfererV {
    match crate::unify::get_instantiation_spec(st, st.file, node) {
        Some(inst) => {
            let (st, args) = finalized_args_spec(st, &inst.0);
            let st = crate::unify::set_instantiation_spec(st, st.file, node, Instantiation(args));
            st
        },
        None => {
            st
        },
    }
}

impl Inferer {
    /// The definition whose body a node of the file being inferred holds.
    pub fn func_owner(&self, env: &InferCx, func: NodeId) -> (r: Option<DefId>)
        ensures
            r == func_owner_spec(self@, env, func),
    {
        owner_of(env.tables, self.file, func)
    }

    /// What a function is generic over: its own list, what else its signature
    /// mentions, the parameters of the impl it is in, and every associated type of
    /// those.
    pub fn generics_of_func(&mut self, env: &InferCx, func: NodeId) -> (r: Option<Generics>)
        ensures
            (final(self)@, r) == generics_of_func_spec(old(self)@, env, func),
            crate::keeping::kept(old(self)@, final(self)@),
    {
        match kind_of(env.tables, self.file, func) {
            Some(NodeKind::FuncExpr { generics, params: _, ret: _, body: _, abi: _ }) => {
                let own = self.generic_defs(env, self.file, generics);
                let sig = self.inferred_sig_ty(env, func);
                let (tys, consts) = collect_generic_params(env.tables, &sig, List::Nil, List::Nil);
                let named = merge_defs(merge_defs(dup_defs(&own), &tys), &consts);
                let all = merge_defs(named, &impl_generics_of(env, self.func_owner(env, func)));
                Some(
                    Generics {
                        params: close_over_projections(env.tables, all, 0, DEPTH_LIMIT),
                        own: list_len(&own),
                    },
                )
            },
            _ => None,
        }
    }

    /// Record what a function is generic over.
    pub fn stamp_generics(&mut self, env: &InferCx, func: NodeId)
        ensures
            final(self)@ == stamp_generics_spec(old(self)@, env, func),
            crate::keeping::kept(old(self)@, final(self)@),
    {
        let found = self.generics_of_func(env, func);
        match found {
            Some(g) => {
                self.set_generics(self.file, func, g);
            },
            None => {},
        }
    }

    /// Complain about the first name, among the nodes of a stack and their parts,
    /// that a default argument takes from its own function's parameters.
    pub fn reject_param_refs_in_default(
        &mut self,
        env: &InferCx,
        stack: List<NodeId>,
        params: &List<DefId>,
        fuel: u64,
    )
        ensures
            final(self)@ == reject_param_refs_in_default_spec(old(self)@, env, stack, params, fuel),
            crate::keeping::kept(old(self)@, final(self)@),
        decreases fuel,
    {
        if fuel == 0 {
            self.give_up();
            return;
        }
        match stack {
            List::Nil => {},
            List::Cons(n, rest) => {
                let named = match self.resolved_def(env, n) {
                    Some(d) => if def_in(params, d) {
                        Some(d)
                    } else {
                        None
                    },
                    None => None,
                };
                match named {
                    Some(d) => {
                        self.report(
                            env,
                            n,
                            say_name(
                                "a default argument cannot name the parameter `",
                                &def_name(env.tables, d),
                                "`: it is evaluated at the call site, where no parameter of this function exists yet",
                            ),
                        );
                    },
                    None => {
                        self.reject_param_refs_in_default(
                            env,
                            stacked(&parts_of(env.tables, self.file, n), *rest),
                            params,
                            (fuel - 1) as u64,
                        );
                    },
                }
            },
        }
    }

    /// The definitions a list of nodes declares.
    pub fn defs_of(&self, l: &List<NodeId>) -> (r: List<DefId>)
        ensures
            r == defs_of_spec(self@, l),
        decreases l,
    {
        match l {
            List::Nil => List::Nil,
            List::Cons(h, t) => match self.def_of(*h) {
                Some(d) => List::Cons(d, Box::new(self.defs_of(t))),
                None => self.defs_of(t),
            },
        }
    }

    /// Type each parameter, check its default against it, and bind its name. A
    /// parameter after one with a default must have one too.
    pub fn infer_params(
        &mut self,
        env: &InferCx,
        l: &List<NodeId>,
        all: &List<DefId>,
        defaulted: Option<Symbol>,
        fuel: u64,
    )
        ensures
            final(self)@ == infer_params_spec(old(self)@, env, l, all, defaulted, fuel),
            crate::keeping::kept(old(self)@, final(self)@),
        decreases fuel, l,
    {
        if fuel == 0 {
            self.give_up();
            return;
        }
        match l {
            List::Nil => {},
            List::Cons(p, rest) => match kind_of(env.tables, self.file, *p) {
                Some(NodeKind::Param { name, ty, default }) => {
                    let pty = match ty {
                        Some(t) => self.ty_from_node(env, *t, (fuel - 1) as u64),
                        None => self.fresh(),
                    };
                    let next = if default.is_some() {
                        Some(dup_sym(name))
                    } else {
                        dup_opt_sym(&defaulted)
                    };
                    match (default, &defaulted) {
                        (None, Some(prev)) => {
                            self.report(
                                env,
                                *p,
                                list5(
                                    Part::Text("parameter `"),
                                    Part::Name(dup_sym(name)),
                                    Part::Text("` has no default but follows `"),
                                    Part::Name(dup_sym(prev)),
                                    Part::Text(
                                        "`, which does — every parameter after a defaulted one must be defaulted too",
                                    ),
                                ),
                            );
                        },
                        _ => {},
                    }
                    match default {
                        Some(d) => {
                            self.infer_default(env, *d, all, &pty, (fuel - 1) as u64);
                        },
                        None => {},
                    }
                    self.bind_name(*p, &pty);
                    self.set_type(*p, pty);
                    self.infer_params(env, rest, all, next, fuel);
                },
                _ => {
                    self.infer_params(env, rest, all, defaulted, fuel);
                },
            },
        }
    }

    /// Check a default argument against its parameter's type.
    pub fn infer_default(&mut self, env: &InferCx, d: NodeId, params: &List<DefId>, want: &Ty, fuel: u64)
        ensures
            final(self)@ == infer_default_spec(old(self)@, env, d, params, want, fuel),
            crate::keeping::kept(old(self)@, final(self)@),
        decreases fuel,
    {
        if fuel == 0 {
            self.give_up();
            return;
        }
        proof {
            reveal(crate::keeping::kept);
        }
        self.reject_param_refs_in_default(env, single(d), params, (fuel - 1) as u64);
        let outer = self.in_default;
        self.in_default = true;
        let got = self.infer_expr(env, d, (fuel - 1) as u64);
        self.in_default = outer;
        self.expect(env, d, &got, want, (fuel - 1) as u64);
    }

    /// Hold what an `impl` return type turned out to be to what the signature
    /// promised, and record it.
    pub fn reveal_opaque(&mut self, env: &InferCx, ret: NodeId, concrete: &Ty)
        ensures
            final(self)@ == reveal_opaque_spec(old(self)@, env, ret, concrete),
            crate::keeping::kept(old(self)@, final(self)@),
    {
        match self.def_of(ret) {
            Some(def) => {
                self.register_bounds(
                    env,
                    ret,
                    &single(def),
                    &bind_ty(no_subst(), def, dup_ty(concrete)),
                    DEPTH_LIMIT,
                );
                self.set_opaque_ty(self.file, ret, OpaqueTy(dup_ty(concrete)));
            },
            None => {},
        }
    }

    /// Infer a function: its parameters, then its body against what it returns.
    pub fn infer_func(&mut self, env: &InferCx, func: NodeId)
        ensures
            final(self)@ == infer_func_spec(old(self)@, env, func),
            old(self)@.facts.ty == final(self)@.facts.ty,
            old(self)@.facts.variant_tag == final(self)@.facts.variant_tag,
            crate::keeping::kept_but_types(old(self)@, final(self)@),
    {
        proof {
            reveal(crate::keeping::kept);
        }
        match kind_of(env.tables, self.file, func) {
            Some(NodeKind::FuncExpr { generics: _, params, ret, body, abi: _ }) => {
                let outer = self.ctx;
                let outer_func = self.func;
                match self.func_owner(env, func) {
                    Some(def) => {
                        self.ctx = Some(def);
                    },
                    None => {},
                }
                self.func = Some(func);
                self.infer_params(env, params, &self.defs_of(params), None, DEPTH_LIMIT);
                let declared = match ret {
                    Some(t) => self.ty_from_node(env, *t, DEPTH_LIMIT),
                    None => Ty::Void,
                };
                let opaque = opaque_slot(env.tables, self.file, *ret);
                let ret_ty = match opaque {
                    Some(_) => self.fresh(),
                    None => dup_ty(&declared),
                };
                self.ret = dup_ty(&ret_ty);
                self.set_type(func, declared);
                match body {
                    Some(b) => {
                        let bty = self.infer_expr(env, *b, DEPTH_LIMIT);
                        self.expect_return(env, *b, &bty, &ret_ty, DEPTH_LIMIT);
                    },
                    None => {},
                }
                match opaque {
                    Some(r) => {
                        self.reveal_opaque(env, r, &ret_ty);
                    },
                    None => {},
                }
                self.stamp_generics(env, func);
                self.ctx = outer;
                self.func = outer_func;
            },
            _ => {},
        }
    }

    /// Reject a float literal flagged as too precise for a double that settled on
    /// one, or on something narrower.
    pub fn check_float_width(&mut self, env: &InferCx, node: NodeId, resolved: &Ty)
        ensures
            final(self)@ == check_float_width_spec(old(self)@, env, node, resolved),
            crate::keeping::kept(old(self)@, final(self)@),
    {
        match (self.get_wide_float(self.file, node), resolved) {
            (Some(_), Ty::Float(w)) => match w {
                FloatWidth::F80 => {},
                FloatWidth::F128 => {},
                _ => {
                    self.report(
                        env,
                        node,
                        say_ty(
                            "float literal is too large or too precise for `",
                            dup_ty(resolved),
                            "`; annotate it as `f80` or `f128`",
                        ),
                    );
                },
            },
            _ => {},
        }
    }

    /// Reject an integer that does not fit the type it settled on.
    pub fn check_int_range(&mut self, env: &InferCx, node: NodeId, resolved: &Ty)
        ensures
            final(self)@ == check_int_range_spec(old(self)@, env, node, resolved),
            crate::keeping::kept(old(self)@, final(self)@),
    {
        match self.get_int(node) {
            Some(value) => match int_parts(&self.numeric_repr(resolved)) {
                Some((signed, bits)) => {
                    if !int_fits(&value, signed, bits) {
                        self.report(
                            env,
                            node,
                            list5(
                                Part::Text("the literal `"),
                                Part::Int(value),
                                Part::Text("` does not fit in `"),
                                Part::Ty(dup_ty(resolved)),
                                Part::Text("`"),
                            ),
                        );
                        self.set_range_reported(self.file, node, RangeReported);
                    }
                },
                None => {},
            },
            None => {},
        }
    }

    /// Reject a float that the type it settled on cannot hold at all. Rounding is no
    /// mistake.
    pub fn check_float_range(&mut self, env: &InferCx, node: NodeId, resolved: &Ty)
        ensures
            final(self)@ == check_float_range_spec(old(self)@, env, node, resolved),
            crate::keeping::kept(old(self)@, final(self)@),
    {
        match (self.get_float(node), self.numeric_repr(resolved)) {
            (Some(value), Ty::Float(width)) => {
                if !float_fits(value, width) {
                    self.report(
                        env,
                        node,
                        list5(
                            Part::Text("the literal `"),
                            Part::Float(value),
                            Part::Text("` does not fit in `"),
                            Part::Ty(dup_ty(resolved)),
                            Part::Text("`"),
                        ),
                    );
                    self.set_range_reported(self.file, node, RangeReported);
                }
            },
            _ => {},
        }
    }

    /// Give a literal back its compile-time type, and record the conversion its
    /// context asked for.
    pub fn record_comptime_coercion(&mut self, env: &InferCx, node: NodeId, resolved: Ty) -> (r: Ty)
        ensures
            (final(self)@, r) == record_comptime_coercion_spec(old(self)@, env, node, resolved),
            crate::unify::settled(&resolved) ==> crate::unify::settled(&r),
            crate::keeping::kept(old(self)@, final(self)@),
    {
        proof {
            reveal(crate::keeping::kept);
        }
        match comptime_of(kind_of(env.tables, self.file, node)) {
            Some(comptime) => {
                let converts = match &comptime {
                    Ty::ComptimeStr => self.admits_str(&resolved),
                    _ => is_number_ty(env.tables, &resolved),
                };
                if converts {
                    self.set_coercion(self.file, node, Coercion { to: resolved });
                    comptime
                } else {
                    resolved
                }
            },
            None => resolved,
        }
    }

    /// Settle one node's type for good, check the literal behind it, and record it.
    pub fn finish_node(&mut self, env: &InferCx, i: u64)
        ensures
            final(self)@ == finish_node_spec(old(self)@, env, i),
            crate::unify::literals_settled(old(self)@) ==> types_settle(
                old(self)@.facts.ty,
                final(self)@.facts.ty,
            ),
            crate::keeping::kept_but_types(old(self)@, final(self)@),
    {
        proof {
            reveal(crate::keeping::kept);
        }
        let node = node_at(i);
        match self.get_type(node) {
            Some(ty) => {
                let (resolved, open) = self.finalize(&ty, DEPTH_LIMIT);
                if open {
                    self.report(env, node, say("type annotations needed"));
                }
                self.check_float_width(env, node, &resolved);
                self.check_int_range(env, node, &resolved);
                self.check_float_range(env, node, &resolved);
                let recorded = self.record_comptime_coercion(env, node, resolved);
                self.set_ty(self.file, node, recorded);
            },
            None => {},
        }
    }

    /// Settle the type of every node from one on, in the order they were written.
    pub fn finish_nodes(&mut self, env: &InferCx, i: u64, n: u64)
        ensures
            final(self)@ == finish_nodes_spec(old(self)@, env, i, n),
            crate::unify::literals_settled(old(self)@) ==> types_settle(
                old(self)@.facts.ty,
                final(self)@.facts.ty,
            ),
            crate::keeping::kept_but_types(old(self)@, final(self)@),
    {
        proof {
            reveal(crate::keeping::kept);
        }
        let ghost start = self@;
        let mut at: u64 = i;
        while at < n
            invariant
                finish_nodes_spec(start, env, i, n) == finish_nodes_spec(self@, env, at, n),
                crate::unify::literals_settled(start) ==> types_settle(start.facts.ty, self@.facts.ty),
                crate::keeping::kept_but_types(start, self@),
            decreases n - at,
        {
            proof {
                reveal(crate::keeping::kept);
            }
            self.finish_node(env, at);
            at = at + 1;
        }
    }

    /// Settle everything a body left open: run what is still to be solved to a
    /// fixpoint, complain about what will not be, and record every node's type and
    /// every fact that mentions one.
    pub fn finish(&mut self, env: &InferCx)
        ensures
            final(self)@ == finish_spec(old(self)@, env),
            crate::unify::literals_settled(old(self)@) ==> types_settle(
                old(self)@.facts.ty,
                final(self)@.facts.ty,
            ),
            crate::unify::literals_settled(old(self)@) ==> nodes_settled(
                final(self)@,
                0,
                crate::def::node_count_spec(env.tables, final(self)@.file),
            ),
            crate::unify::literals_settled(old(self)@) ==> crate::infer::file_settled(
                env.tables,
                final(self)@.facts,
                final(self)@.file,
            ),
            crate::keeping::kept_but_types(old(self)@, final(self)@),
    {
        proof {
            reveal(crate::keeping::kept);
        }
        self.solve_to_fixpoint(env, DEPTH_LIMIT);
        let leftover = self.take_obligations();
        self.report_each_unsolved(env, &leftover, DEPTH_LIMIT);
        self.finish_nodes(env, 0, node_count(env.tables, self.file));
        self.clear_types();
        self.finalize_metas(env, 0, node_count(env.tables, self.file));
        proof {
            reveal(crate::infer::file_settled);
        }
    }

    /// Settle the types recorded with every node's facts.
    pub fn finalize_metas(&mut self, env: &InferCx, i: u64, n: u64)
        ensures
            final(self)@ == finalize_metas_spec(old(self)@, env, i, n),
            crate::unify::literals_settled(old(self)@) ==> nodes_settled(final(self)@, i, n),
            crate::keeping::kept(old(self)@, final(self)@),
    {
        proof {
            reveal(crate::keeping::kept);
        }
        let ghost start = self@;
        let mut at: u64 = i;
        while at < n
            invariant
                finalize_metas_spec(start, env, i, n) == finalize_metas_spec(self@, env, at, n),
                crate::unify::literals_settled(start) ==> nodes_settled(self@, i, at),
                crate::keeping::kept(start, self@),
                i <= n ==> at <= n,
                i <= at,
            decreases n - at,
        {
            proof {
                reveal(crate::keeping::kept);
            }
            self.finalize_node(env, at);
            at = at + 1;
        }
    }

    /// Settle the types recorded with one node's facts.
    pub fn finalize_node(&mut self, env: &InferCx, i: u64)
        ensures
            final(self)@ == finalize_node_spec(old(self)@, env, i),
            crate::unify::literals_settled(old(self)@) ==> facts_settled(
                final(self)@.facts,
                crate::ids::node_key_spec(old(self)@.file, crate::ids::node_at_spec(i)),
            ),
            forall|k: u64| k != crate::ids::node_key_spec(old(self)@.file, crate::ids::node_at_spec(i))
                && facts_settled(old(self)@.facts, k) ==> #[trigger] facts_settled(final(self)@.facts, k),
            crate::keeping::kept(old(self)@, final(self)@),
    {
        proof {
            reveal(crate::keeping::kept);
        }
        proof {
            reveal(facts_settled);
        }
        let node = node_at(i);
        self.finalize_upcast(node);
        self.finalize_method(node);
        self.finalize_static_self(node);
        self.finalize_dyn(node);
        self.finalize_opaque(node);
        self.finalize_closure(env, node);
        self.finalize_slice(node);
        self.finalize_instantiation(node);
    }

    /// An `@using` coercion's target.
    pub fn finalize_upcast(&mut self, node: NodeId)
        ensures
            final(self)@ == finalize_upcast_spec(old(self)@, node),
            crate::unify::literals_settled(old(self)@) ==> upcast_settled(
                final(self)@.facts,
                crate::ids::node_key_spec(old(self)@.file, node),
            ),
            final(self)@.facts == (FactsV { upcast: final(self)@.facts.upcast, ..old(self)@.facts }),
            same_but(
                old(self)@.facts.upcast,
                final(self)@.facts.upcast,
                crate::ids::node_key_spec(old(self)@.file, node),
            ),
            crate::keeping::kept(old(self)@, final(self)@),
    {
        proof {
            reveal(crate::keeping::kept);
        }
        match self.get_upcast(self.file, node) {
            Some(up) => {
                let target = self.finalized(&up.target);
                self.set_upcast(
                    self.file,
                    node,
                    Upcast { field: up.field, through_ptr: up.through_ptr, target: target },
                );
            },
            None => {},
        }
    }

    /// What a bound was written with.
    pub fn finalized_dispatch(&mut self, d: MethodDispatch) -> (r: MethodDispatch)
        ensures
            (final(self)@, r) == finalized_dispatch_spec(old(self)@, d),
            crate::unify::literals_settled(old(self)@) ==> dispatch_settled(&r),
            old(self)@.facts == final(self)@.facts,
            crate::keeping::kept(old(self)@, final(self)@),
    {
        proof {
            reveal(crate::keeping::kept);
        }
        match d {
            MethodDispatch::Generic { trait_def, args } => {
                let args = self.finalized_tys(&args);
                MethodDispatch::Generic { trait_def: trait_def, args: args }
            },
            MethodDispatch::Static => MethodDispatch::Static,
            MethodDispatch::Virtual(t) => MethodDispatch::Virtual(t),
        }
    }

    /// A method call's receiver.
    pub fn finalize_method(&mut self, node: NodeId)
        ensures
            final(self)@ == finalize_method_spec(old(self)@, node),
            crate::unify::literals_settled(old(self)@) ==> method_res_settled(
                final(self)@.facts,
                crate::ids::node_key_spec(old(self)@.file, node),
            ),
            final(self)@.facts == (FactsV { method_res: final(self)@.facts.method_res, ..old(self)@.facts }),
            same_but(
                old(self)@.facts.method_res,
                final(self)@.facts.method_res,
                crate::ids::node_key_spec(old(self)@.file, node),
            ),
            crate::keeping::kept(old(self)@, final(self)@),
    {
        proof {
            reveal(crate::keeping::kept);
        }
        match self.get_method_res(self.file, node) {
            Some(m) => {
                let self_ty = self.finalized(&m.self_ty);
                let dispatch = self.finalized_dispatch(m.dispatch);
                self.set_method_res(
                    self.file,
                    node,
                    MethodRes { method: m.method, dispatch: dispatch, adjust: m.adjust, self_ty: self_ty },
                );
            },
            None => {},
        }
    }

    /// A static trait call's `Self`.
    pub fn finalize_static_self(&mut self, node: NodeId)
        ensures
            final(self)@ == finalize_static_self_spec(old(self)@, node),
            crate::unify::literals_settled(old(self)@) ==> static_trait_self_settled(
                final(self)@.facts,
                crate::ids::node_key_spec(old(self)@.file, node),
            ),
            final(self)@.facts == (FactsV { static_trait_self: final(self)@.facts.static_trait_self, ..old(self)@.facts }),
            same_but(
                old(self)@.facts.static_trait_self,
                final(self)@.facts.static_trait_self,
                crate::ids::node_key_spec(old(self)@.file, node),
            ),
            crate::keeping::kept(old(self)@, final(self)@),
    {
        proof {
            reveal(crate::keeping::kept);
        }
        match self.get_static_trait_self(self.file, node) {
            Some(s) => {
                let self_ty = self.finalized(&s.self_ty);
                let trait_args = self.finalized_tys(&s.trait_args);
                self.set_static_trait_self(
                    self.file,
                    node,
                    StaticTraitSelf { trait_def: s.trait_def, self_ty: self_ty, trait_args: trait_args },
                );
            },
            None => {},
        }
    }

    /// An unsized pointer's pointee.
    pub fn finalize_dyn(&mut self, node: NodeId)
        ensures
            final(self)@ == finalize_dyn_spec(old(self)@, node),
            crate::unify::literals_settled(old(self)@) ==> dyn_coerce_settled(
                final(self)@.facts,
                crate::ids::node_key_spec(old(self)@.file, node),
            ),
            final(self)@.facts == (FactsV { dyn_coerce: final(self)@.facts.dyn_coerce, ..old(self)@.facts }),
            same_but(
                old(self)@.facts.dyn_coerce,
                final(self)@.facts.dyn_coerce,
                crate::ids::node_key_spec(old(self)@.file, node),
            ),
            crate::keeping::kept(old(self)@, final(self)@),
    {
        proof {
            reveal(crate::keeping::kept);
        }
        match self.get_dyn_coerce(self.file, node) {
            Some(d) => {
                let concrete = self.finalized(&d.concrete);
                let object = self.finalized(&d.object);
                self.set_dyn_coerce(
                    self.file,
                    node,
                    DynCoerce { trait_def: d.trait_def, object: object, concrete: concrete },
                );
            },
            None => {},
        }
    }

    /// What an `impl` return type is.
    pub fn finalize_opaque(&mut self, node: NodeId)
        ensures
            final(self)@ == finalize_opaque_spec(old(self)@, node),
            crate::unify::literals_settled(old(self)@) ==> opaque_ty_settled(
                final(self)@.facts,
                crate::ids::node_key_spec(old(self)@.file, node),
            ),
            final(self)@.facts == (FactsV { opaque_ty: final(self)@.facts.opaque_ty, ..old(self)@.facts }),
            same_but(
                old(self)@.facts.opaque_ty,
                final(self)@.facts.opaque_ty,
                crate::ids::node_key_spec(old(self)@.file, node),
            ),
            crate::keeping::kept(old(self)@, final(self)@),
    {
        proof {
            reveal(crate::keeping::kept);
        }
        match self.get_opaque_ty(self.file, node) {
            Some(o) => {
                let t = self.finalized(&o.0);
                self.set_opaque_ty(self.file, node, OpaqueTy(t));
            },
            None => {},
        }
    }

    /// A closure's signature, whose types cannot name a `const` parameter.
    pub fn finalize_closure(&mut self, env: &InferCx, node: NodeId)
        ensures
            final(self)@ == finalize_closure_spec(old(self)@, env, node),
            said_of_closure_spec(
                old(self)@,
                old(self)@.file,
                crate::def::span_of_spec(env.tables, old(self)@.file, node).1,
            ) ==> final(self)@.diags == old(self)@.diags,
            final(self)@.diags != old(self)@.diags ==> said_of_closure_spec(
                final(self)@,
                final(self)@.file,
                crate::def::span_of_spec(env.tables, final(self)@.file, node).1,
            ),
            crate::unify::literals_settled(old(self)@) ==> closure_sig_settled(
                final(self)@.facts,
                crate::ids::node_key_spec(old(self)@.file, node),
            ),
            final(self)@.facts == (FactsV { closure_sig: final(self)@.facts.closure_sig, ..old(self)@.facts }),
            same_but(
                old(self)@.facts.closure_sig,
                final(self)@.facts.closure_sig,
                crate::ids::node_key_spec(old(self)@.file, node),
            ),
            crate::keeping::kept(old(self)@, final(self)@),
    {
        proof {
            reveal(crate::keeping::kept);
        }
        match self.get_closure_sig(self.file, node) {
            Some(sig) => {
                let params = self.finalized_tys(&sig.params);
                let ret = self.finalized(&sig.ret);
                let shared = self.finalized_tys(&sig.shared);
                let (_at, span) = span_of(env.tables, self.file, node);
                let said = self.said_of_closure(self.file, span);
                let names = any_mentions(&params, Mention::ConstParam)
                    || mentions(&ret, Mention::ConstParam)
                    || any_mentions(&shared, Mention::ConstParam);
                if !said && names {
                    self.report(env, node, single(Part::ClosureNamesConst));
                    proof {
                        assert(
                            crate::diag::names_closure_const_spec(&self@.diags[self@.diags.len() - 1].message)
                        );
                    }
                }
                self.set_closure_sig(
                    self.file,
                    node,
                    ClosureSig { params: params, ret: ret, generics: sig.generics, shared: shared },
                );
            },
            None => {},
        }
    }

    /// A slice coercion's result.
    pub fn finalize_slice(&mut self, node: NodeId)
        ensures
            final(self)@ == finalize_slice_spec(old(self)@, node),
            crate::unify::literals_settled(old(self)@) ==> slice_coerce_settled(
                final(self)@.facts,
                crate::ids::node_key_spec(old(self)@.file, node),
            ),
            final(self)@.facts == (FactsV { slice_coerce: final(self)@.facts.slice_coerce, ..old(self)@.facts }),
            same_but(
                old(self)@.facts.slice_coerce,
                final(self)@.facts.slice_coerce,
                crate::ids::node_key_spec(old(self)@.file, node),
            ),
            crate::keeping::kept(old(self)@, final(self)@),
    {
        proof {
            reveal(crate::keeping::kept);
        }
        match self.get_slice_coerce(self.file, node) {
            Some(s) => {
                let to = self.finalized(&s.to);
                let range = self.finalized(&s.range);
                self.set_slice_coerce(self.file, node, SliceCoerce { to: to, range: range });
            },
            None => {},
        }
    }

    /// Generic arguments with their variables replaced for good.
    pub fn finalized_args(&mut self, l: &List<GenericArg>) -> (r: List<GenericArg>)
        ensures
            (final(self)@, r) == finalized_args_spec(old(self)@, l),
            crate::unify::literals_settled(old(self)@) ==> args_settled(&r),
            old(self)@.facts == final(self)@.facts,
            crate::keeping::kept(old(self)@, final(self)@),
        decreases l,
    {
        proof {
            reveal(crate::keeping::kept);
        }
        match l {
            List::Nil => List::Nil,
            List::Cons(h, t) => {
                let first = match h {
                    GenericArg::Ty(ty) => {
                        let ty = self.finalized(ty);
                        GenericArg::Ty(ty)
                    },
                    GenericArg::Const(k) => {
                        let (k, _open) = self.finalize_const(k);
                        GenericArg::Const(k)
                    },
                };
                let rest = self.finalized_args(t);
                List::Cons(first, Box::new(rest))
            },
        }
    }

    /// What a call's generics are.
    pub fn finalize_instantiation(&mut self, node: NodeId)
        ensures
            final(self)@ == finalize_instantiation_spec(old(self)@, node),
            crate::unify::literals_settled(old(self)@) ==> instantiation_settled(
                final(self)@.facts,
                crate::ids::node_key_spec(old(self)@.file, node),
            ),
            final(self)@.facts == (FactsV { instantiation: final(self)@.facts.instantiation, ..old(self)@.facts }),
            same_but(
                old(self)@.facts.instantiation,
                final(self)@.facts.instantiation,
                crate::ids::node_key_spec(old(self)@.file, node),
            ),
            crate::keeping::kept(old(self)@, final(self)@),
    {
        proof {
            reveal(crate::keeping::kept);
        }
        match self.get_instantiation(self.file, node) {
            Some(inst) => {
                let args = self.finalized_args(&inst.0);
                self.set_instantiation(self.file, node, Instantiation(args));
            },
            None => {},
        }
    }
}

impl Inferer {
    /// Forget what was inferred of the nodes.
    pub fn clear_types(&mut self)
        ensures
            final(self)@ == clear_types_spec(old(self)@),
    {
        self.types = Table::new();
    }

    /// Whether a closure at a place was already said to name a `const` parameter.
    pub fn said_of_closure(&self, file: FileId, span: Span) -> (r: bool)
        ensures
            r == said_of_closure_spec(self@, file, span),
    {
        let mut i: usize = 0;
        while i < self.diags.len()
            invariant
                i <= self.diags@.len(),
                forall|j: int|
                    0 <= j < i ==> !(crate::diag::names_closure_const_spec(
                        &(#[trigger] self.diags@[j]).message,
                    ) && self.diags@[j].file == file && self.diags@[j].span == span),
            decreases self.diags@.len() - i,
        {
            let d = &self.diags[i];
            if names_closure_const(&d.message) && d.file == file && d.span == span {
                return true;
            }
            i = i + 1;
        }
        false
    }
}

} // verus!
