//! What a position demands of a value, the coercions that meet it, and the
//! names patterns bind.

use vstd::prelude::*;

use crate::ast::{children, NodeKind, SliceRest, VariantPatArgs};
use crate::def::{def_kind, def_name, get_def, kind_of, lang_def, DefKind, Tables};
use crate::diag::{say, say_ty, Part};
use crate::facts::{Coercion, DynCoerce, SliceCoerce, Upcast};
use crate::ids::{DefId, NodeId};
use crate::list::{list5, list_len, nth, single, succ, DEPTH_LIMIT, List};
use crate::lower::record_field_names;
use crate::solve::{payload_named, Select};
use crate::subst::{args_tuple, int_parts, int_widens, is_error, is_var};
use crate::symbol::{sym_is, Symbol};
use crate::ty::{dup_named_tys, dup_ty, dup_tys, find_named, Ty};
use crate::types::{behind, is_ptr_sized};
use crate::unify::{InferCx, Inferer, InfererV};

verus! {

broadcast use {
    crate::keeping::kept_by_both,
    crate::keeping::kept_by_nothing,
    crate::keeping::loops_stand_on,
    crate::keeping::loops_stand_still,
};

// Demands.

/// [`is_never`], as a mathematical function.
pub open spec fn is_never_spec(ty: &Ty) -> bool {
    match ty {
        Ty::Never => true,
        _ => false,
    }
}

/// Whether a type is `never`.
pub fn is_never(ty: &Ty) -> (r: bool)
    ensures
        r == is_never_spec(ty),
{
    match ty {
        Ty::Never => true,
        _ => false,
    }
}

/// [`Inferer::expect_return`], as a mathematical function.
pub open spec fn expect_return_spec(
    st: InfererV,
    env: &InferCx,
    node: NodeId,
    actual: &Ty,
    expected: &Ty,
    fuel: u64,
) -> InfererV
    decreases fuel,
{
    if fuel == 0 {
        crate::unify::give_up_spec(st)
    } else {
        if is_never_spec(&crate::unify::resolve_spec(st, expected, DEPTH_LIMIT)) {
            let (st, _clash) = crate::unify::unify_spec(st, actual, expected, (fuel - 1) as u64);
            st
        } else {
            let st = expect_spec(st, env, node, actual, expected, (fuel - 1) as u64);
            st
        }
    }
}

/// [`Inferer::expect`], as a mathematical function.
pub open spec fn expect_spec(
    st: InfererV,
    env: &InferCx,
    node: NodeId,
    actual: &Ty,
    expected: &Ty,
    fuel: u64,
) -> InfererV
    decreases fuel,
{
    if fuel == 0 {
        crate::unify::give_up_spec(st)
    } else {
        let want = crate::unify::resolve_spec(st, expected, DEPTH_LIMIT);
        let got = crate::unify::resolve_spec(st, actual, DEPTH_LIMIT);
        if is_never_spec(&want) && !is_never_spec(&got) && !crate::subst::is_error_spec(&got) {
            let msg = if crate::subst::is_var_spec(&got) {
                crate::diag::say_spec("expected `never`: `never` is uninhabited, so no value has that type")
            } else {
                crate::diag::say_ty_spec(
                    "expected `never`, found `",
                    got,
                    "`: `never` is uninhabited, so no value has that type",
                )
            };
            let st = crate::unify::report_spec(st, env, node, msg);
            st
        } else {
            let snapshot = crate::unify::snapshot_spec(st);
            let (st, clashed) = crate::unify::unify_spec(st, actual, expected, (fuel - 1) as u64);
            match clashed {
                None => {
                    st
                },
                Some((a, b)) => {
                    let st = crate::unify::rollback_spec(st, snapshot);
                    let (st, coerced) = try_coerce_spec(st, env, node, actual, expected, (fuel - 1) as u64);
                    if !coerced {
                        let st = crate::unify::report_spec(
                            st,
                            env,
                            node,
                            crate::list::list5_spec(
                                Part::Text("type mismatch: expected `"),
                                Part::Ty(crate::unify::resolve_spec(st, &b, DEPTH_LIMIT)),
                                Part::Text("`, found `"),
                                Part::Ty(crate::unify::resolve_spec(st, &a, DEPTH_LIMIT)),
                                Part::Text("`"),
                            ),
                        );
                        st
                    } else {
                        st
                    }
                },
            }
        }
    }
}

/// [`Inferer::try_coerce`], as a mathematical function.
pub open spec fn try_coerce_spec(
    st: InfererV,
    env: &InferCx,
    node: NodeId,
    actual: &Ty,
    expected: &Ty,
    fuel: u64,
) -> (InfererV, bool)
    decreases fuel,
{
    if fuel == 0 {
        (crate::unify::give_up_spec(st), false)
    } else {
        let (st, widened) = try_int_widen_spec(st, env, node, actual, expected);
        if widened {
            (st, true)
        } else {
            let (st, sliced) = try_array_to_slice_spec(st, env, node, actual, expected);
            if sliced {
                (st, true)
            } else {
                let (st, unsized_ptr) = try_dyn_coerce_spec(
                    st,
                    env,
                    node,
                    actual,
                    expected,
                    (fuel - 1) as u64,
                );
                if unsized_ptr {
                    (st, true)
                } else {
                    let (st, named) = try_anon_to_named_spec(
                        st,
                        env,
                        node,
                        actual,
                        expected,
                        (fuel - 1) as u64,
                    );
                    if named {
                        (st, true)
                    } else {
                        try_upcast_spec(st, env, node, actual, expected, (fuel - 1) as u64)
                    }
                }
            }
        }
    }
}

/// [`Inferer::try_int_widen`], as a mathematical function.
pub open spec fn try_int_widen_spec(
    st: InfererV,
    env: &InferCx,
    node: NodeId,
    actual: &Ty,
    expected: &Ty,
) -> (InfererV, bool) {
    let got = crate::unify::shallow_spec(st, actual, DEPTH_LIMIT);
    let want = crate::unify::shallow_spec(st, expected, DEPTH_LIMIT);
    if crate::types::is_ptr_sized_spec(env.tables, &got)
        || crate::types::is_ptr_sized_spec(env.tables, &want) {
        (st, false)
    } else {
        match (crate::subst::int_parts_spec(&got), crate::subst::int_parts_spec(&want)) {
            (Some(from), Some(to)) => if crate::subst::int_widens_spec(from, to) {
                let (st, c) = crate::unify::unify_spec(st, &want, expected, DEPTH_LIMIT);
                if c.is_none() {
                    let st = crate::unify::set_coercion_spec(st, st.file, node, Coercion { to: want });
                    (st, true)
                } else {
                    (st, false)
                }
            } else {
                (st, false)
            },
            _ => (st, false),
        }
    }
}

/// [`Inferer::try_array_to_slice`], as a mathematical function.
pub open spec fn try_array_to_slice_spec(
    st: InfererV,
    env: &InferCx,
    node: NodeId,
    actual: &Ty,
    expected: &Ty,
) -> (InfererV, bool) {
    match (
        crate::unify::shallow_spec(st, actual, DEPTH_LIMIT),
        crate::unify::shallow_spec(st, expected, DEPTH_LIMIT),
    ) {
        (
            Ty::Array { len: _, mutable: _, inner },
            Ty::Slice { mutable: false, inner: want },
        ) => match crate::def::lang_def_spec(env.tables, "range") {
            Some(range) => {
                let snapshot = crate::unify::snapshot_spec(st);
                let (st, c) = crate::unify::unify_spec(st, &inner, &want, DEPTH_LIMIT);
                if c.is_none() {
                    let to = crate::unify::resolve_spec(st, expected, DEPTH_LIMIT);
                    let range = Ty::Nominal {
                        def: range,
                        args: Box::new(crate::list::single_spec(crate::unify::usize_ty_spec(st))),
                    };
                    let st = crate::unify::set_slice_coerce_spec(
                        st,
                        st.file,
                        node,
                        SliceCoerce { to: to, range: range },
                    );
                    (st, true)
                } else {
                    let st = crate::unify::rollback_spec(st, snapshot);
                    (st, false)
                }
            },
            None => (st, false),
        },
        _ => (st, false),
    }
}

/// [`is_closure_ty`], as a mathematical function.
pub open spec fn is_closure_ty_spec(t: &Tables, ty: &Ty) -> bool {
    match ty {
        Ty::Nominal { def, args: _ } => match crate::def::get_def_spec(t, *def) {
            Some(d) => d.kind == DefKind::Closure || d.opaque,
            None => false,
        },
        _ => false,
    }
}

/// Whether a type is a closure, or an `impl` return type, which is the closure
/// its body returned.
pub fn is_closure_ty(t: &Tables, ty: &Ty) -> (r: bool)
    ensures
        r == is_closure_ty_spec(t, ty),
{
    match ty {
        Ty::Nominal { def, args: _ } => match get_def(t, *def) {
            Some(d) => d.kind == DefKind::Closure || d.opaque,
            None => false,
        },
        _ => false,
    }
}

/// [`Inferer::unify_pins`], as a mathematical function.
pub open spec fn unify_pins_spec(
    st: InfererV,
    l: &List<(Symbol, Ty)>,
    params: &List<Ty>,
    ret: &Ty,
    fuel: u64,
) -> (InfererV, bool)
    decreases fuel, l,
{
    if fuel == 0 {
        (crate::unify::give_up_spec(st), false)
    } else {
        match l {
            List::Nil => (st, true),
            List::Cons(h, rest) => if crate::symbol::sym_is_spec(&h.0, "Args") {
                let (st, c) = crate::unify::unify_spec(
                    st,
                    &crate::subst::args_tuple_spec(params),
                    &h.1,
                    (fuel - 1) as u64,
                );
                if c.is_none() {
                    unify_pins_spec(st, rest, params, ret, fuel)
                } else {
                    (st, false)
                }
            } else if crate::symbol::sym_is_spec(&h.0, "Output") {
                let (st, c) = crate::unify::unify_spec(st, ret, &h.1, (fuel - 1) as u64);
                if c.is_none() {
                    unify_pins_spec(st, rest, params, ret, fuel)
                } else {
                    (st, false)
                }
            } else {
                (st, false)
            },
        }
    }
}

/// [`Inferer::unsizing`], as a mathematical function.
pub open spec fn unsizing_spec(st: InfererV, actual: &Ty, expected: &Ty) -> Option<(Ty, Ty)> {
    match (
        crate::unify::shallow_spec(st, actual, DEPTH_LIMIT),
        crate::unify::shallow_spec(st, expected, DEPTH_LIMIT),
    ) {
        (Ty::Ptr { mutable, inner }, Ty::Ptr { mutable: em, inner: ei }) => if em && !mutable {
            None
        } else {
            let object = crate::unify::shallow_spec(st, &ei, DEPTH_LIMIT);
            let concrete = crate::unify::shallow_spec(st, &inner, DEPTH_LIMIT);
            if crate::subst::is_var_spec(&concrete) || crate::subst::is_error_spec(&concrete) {
                None
            } else {
                Some((concrete, object))
            }
        },
        _ => None,
    }
}

/// [`Inferer::try_dyn_coerce`], as a mathematical function.
pub open spec fn try_dyn_coerce_spec(
    st: InfererV,
    env: &InferCx,
    node: NodeId,
    actual: &Ty,
    expected: &Ty,
    fuel: u64,
) -> (InfererV, bool)
    decreases fuel,
{
    if fuel == 0 {
        (crate::unify::give_up_spec(st), false)
    } else {
        match unsizing_spec(st, actual, expected) {
            Some((concrete, object)) => {
                match object_parts_spec(&object) {
                    Some((trait_def, pins)) => {
                        if crate::def::lang_def_spec(env.tables, "func") == Some(trait_def) {
                            try_func_coerce_spec(
                                st,
                                env,
                                node,
                                trait_def,
                                concrete,
                                object,
                                &pins,
                                (fuel - 1) as u64,
                            )
                        } else {
                            let (st, proved) = if crate::types::param_has_bound_spec(st, env, &concrete, trait_def) {
                                (st, true)
                            } else {
                                let (st, s) = crate::solve::select_spec(
                                    st,
                                    env,
                                    &concrete,
                                    trait_def,
                                    &List::Nil,
                                    (fuel - 1) as u64,
                                );
                                (st, is_found_spec(s))
                            };
                            if proved {
                                let st = crate::unify::set_dyn_coerce_spec(
                                    st,
                                    st.file,
                                    node,
                                    DynCoerce { trait_def: trait_def, object: object, concrete: concrete },
                                );
                                (st, true)
                            } else {
                                (st, false)
                            }
                        }
                    },
                    _ => {
                        (st, false)
                    },
                }
            },
            _ => {
                (st, false)
            },
        }
    }
}

/// [`is_found`], as a mathematical function.
pub open spec fn is_found_spec(s: Select) -> bool {
    match s {
        Select::Found(_) => true,
        _ => false,
    }
}

/// Whether a selection found an impl.
pub fn is_found(s: Select) -> (r: bool)
    ensures
        r == is_found_spec(s),
{
    match s {
        Select::Found(_) => true,
        _ => false,
    }
}

/// [`object_parts`], as a mathematical function.
pub open spec fn object_parts_spec(ty: &Ty) -> Option<(DefId, List<(Symbol, Ty)>)> {
    match ty {
        Ty::Dyn { def, assoc } => Some((*def, (**assoc))),
        _ => None,
    }
}

/// The trait of a trait object, and what it pins.
pub fn object_parts(ty: &Ty) -> (r: Option<(DefId, List<(Symbol, Ty)>)>)
    ensures
        r == object_parts_spec(ty),
{
    match ty {
        Ty::Dyn { def, assoc } => Some((*def, dup_named_tys(&**assoc))),
        _ => None,
    }
}

/// [`Inferer::try_func_coerce`], as a mathematical function.
pub open spec fn try_func_coerce_spec(
    st: InfererV,
    env: &InferCx,
    node: NodeId,
    trait_def: DefId,
    concrete: Ty,
    object: Ty,
    pins: &List<(Symbol, Ty)>,
    fuel: u64,
) -> (InfererV, bool)
    decreases fuel,
{
    if fuel == 0 {
        (crate::unify::give_up_spec(st), false)
    } else {
        if !is_closure_ty_spec(env.tables, &concrete) {
            (st, false)
        } else {
            let (st, sig) = crate::solve::func_value_sig_spec(st, env, &concrete, (fuel - 1) as u64);
            match sig {
                Some((params, ret)) => {
                    let snapshot = crate::unify::snapshot_spec(st);
                    let (st, fits) = unify_pins_spec(st, pins, &params, &ret, (fuel - 1) as u64);
                    if fits {
                        let shown = crate::unify::resolve_spec(st, &object, DEPTH_LIMIT);
                        let st = crate::unify::set_dyn_coerce_spec(
                            st,
                            st.file,
                            node,
                            DynCoerce { trait_def: trait_def, object: shown, concrete: concrete },
                        );
                        (st, true)
                    } else {
                        let st = crate::unify::rollback_spec(st, snapshot);
                        (st, false)
                    }
                },
                _ => {
                    (st, false)
                },
            }
        }
    }
}

/// [`using_field_of`], as a mathematical function.
pub open spec fn using_field_of_spec(t: &Tables, d: DefId) -> Option<DefId> {
    match crate::def::get_def_spec(t, d) {
        Some(def) => def.using_field,
        None => None,
    }
}

/// The `@using` field of a definition.
pub fn using_field_of(t: &Tables, d: DefId) -> (r: Option<DefId>)
    ensures
        r == using_field_of_spec(t, d),
{
    match get_def(t, d) {
        Some(def) => def.using_field,
        None => None,
    }
}

/// [`Inferer::try_upcast`], as a mathematical function.
pub open spec fn try_upcast_spec(
    st: InfererV,
    env: &InferCx,
    node: NodeId,
    actual: &Ty,
    expected: &Ty,
    fuel: u64,
) -> (InfererV, bool)
    decreases fuel,
{
    if fuel == 0 {
        (crate::unify::give_up_spec(st), false)
    } else {
        match crate::types::nominal_head_spec(st, actual) {
            Some((head, ptr)) => {
                match using_field_of_spec(env.tables, head) {
                    Some(field) => {
                        let (st, fty) = crate::types::field_ty_spec(
                            st,
                            env,
                            actual,
                            &crate::def::def_name_spec(env.tables, field),
                            (fuel - 1) as u64,
                        );
                        match fty {
                            Some(fty) => {
                                let target = crate::types::behind_spec(ptr, fty);
                                let snapshot = crate::unify::snapshot_spec(st);
                                let (st, c) = crate::unify::unify_spec(
                                    st,
                                    &target,
                                    expected,
                                    (fuel - 1) as u64,
                                );
                                if c.is_none() {
                                    let st = crate::unify::set_upcast_spec(
                                        st,
                                        st.file,
                                        node,
                                        Upcast { field: field, through_ptr: ptr.is_some(), target: target },
                                    );
                                    (st, true)
                                } else {
                                    let st = crate::unify::rollback_spec(st, snapshot);
                                    (st, false)
                                }
                            },
                            _ => {
                                (st, false)
                            },
                        }
                    },
                    _ => {
                        (st, false)
                    },
                }
            },
            _ => {
                (st, false)
            },
        }
    }
}

/// [`all_named`], as a mathematical function.
pub open spec fn all_named_spec(l: &List<Symbol>, fields: &List<(Symbol, Ty)>) -> bool
    decreases l,
{
    match l {
        List::Nil => true,
        List::Cons(h, t) => crate::ty::find_named_spec(fields, h).is_some() && all_named_spec(t, fields),
    }
}

/// Whether every name of a list is among some fields.
pub fn all_named(l: &List<Symbol>, fields: &List<(Symbol, Ty)>) -> (r: bool)
    ensures
        r == all_named_spec(l, fields),
    decreases l,
{
    match l {
        List::Nil => true,
        List::Cons(h, t) => find_named(fields, h).is_some() && all_named(t, fields),
    }
}

/// [`Inferer::unify_fields`], as a mathematical function.
pub open spec fn unify_fields_spec(
    st: InfererV,
    env: &InferCx,
    l: &List<(Symbol, Ty)>,
    want: &Ty,
    fuel: u64,
) -> (InfererV, bool)
    decreases fuel, l,
{
    if fuel == 0 {
        (crate::unify::give_up_spec(st), false)
    } else {
        match l {
            List::Nil => (st, true),
            List::Cons(h, rest) => {
                let (st, ft) = crate::types::field_ty_spec(st, env, want, &h.0, (fuel - 1) as u64);
                match ft {
                    Some(ft) => {
                        let (st, c) = crate::unify::unify_spec(st, &h.1, &ft, (fuel - 1) as u64);
                        if c.is_none() {
                            unify_fields_spec(st, env, rest, want, fuel)
                        } else {
                            (st, false)
                        }
                    },
                    None => (st, false),
                }
            },
        }
    }
}

/// [`Inferer::try_anon_to_named`], as a mathematical function.
pub open spec fn try_anon_to_named_spec(
    st: InfererV,
    env: &InferCx,
    node: NodeId,
    actual: &Ty,
    expected: &Ty,
    fuel: u64,
) -> (InfererV, bool)
    decreases fuel,
{
    if fuel == 0 {
        (crate::unify::give_up_spec(st), false)
    } else {
        let want = crate::unify::shallow_spec(st, expected, DEPTH_LIMIT);
        match (crate::unify::shallow_spec(st, actual, DEPTH_LIMIT), &want) {
            (Ty::Struct(fields), Ty::Nominal { def, args: _ }) => {
                if crate::def::def_kind_spec(env.tables, *def) != DefKind::Struct {
                    (st, false)
                } else {
                    let declared = crate::lower::record_field_names_spec(env.tables, *def);
                    if crate::list::list_len_spec(&declared) != crate::list::list_len_spec(&fields)
                        || !all_named_spec(&declared, &fields) {
                        (st, false)
                    } else {
                        let snapshot = crate::unify::snapshot_spec(st);
                        let (st, fits) = unify_fields_spec(st, env, &fields, &want, (fuel - 1) as u64);
                        if fits {
                            let to = crate::unify::resolve_spec(st, &want, DEPTH_LIMIT);
                            let st = crate::unify::set_coercion_spec(st, st.file, node, Coercion { to: to });
                            (st, true)
                        } else {
                            let st = crate::unify::rollback_spec(st, snapshot);
                            (st, false)
                        }
                    }
                }
            },
            _ => (st, false),
        }
    }
}

// Patterns.

/// [`Inferer::bind_name`], as a mathematical function.
pub open spec fn bind_name_spec(st: InfererV, node: NodeId, ty: &Ty) -> InfererV {
    match crate::decls::def_of_spec(st, node) {
        Some(def) => {
            let st = crate::unify::set_local_spec(st, def, (*ty));
            st
        },
        None => {
            st
        },
    }
}

/// [`Inferer::bind_each`], as a mathematical function.
pub open spec fn bind_each_spec(
    st: InfererV,
    env: &InferCx,
    l: &List<NodeId>,
    tys: &List<Ty>,
    i: u64,
    fuel: u64,
) -> InfererV
    decreases fuel, l,
{
    if fuel == 0 {
        crate::unify::give_up_spec(st)
    } else {
        match l {
            List::Nil => {
                st
            },
            List::Cons(p, rest) => {
                let (st, ty) = match crate::list::nth_spec(tys, i) {
                    Some(t) => (st, (*t)),
                    None => crate::unify::fresh_spec(st),
                };
                let st = bind_pattern_spec(st, env, *p, &ty, (fuel - 1) as u64);
                let st = bind_each_spec(st, env, rest, tys, crate::list::succ_spec(i), fuel);
                st
            },
        }
    }
}

/// [`Inferer::bind_all`], as a mathematical function.
pub open spec fn bind_all_spec(st: InfererV, env: &InferCx, l: &List<NodeId>, ty: &Ty, fuel: u64) -> InfererV
    decreases fuel, l,
{
    if fuel == 0 {
        crate::unify::give_up_spec(st)
    } else {
        match l {
            List::Nil => {
                st
            },
            List::Cons(p, rest) => {
                let st = bind_pattern_spec(st, env, *p, ty, (fuel - 1) as u64);
                let st = bind_all_spec(st, env, rest, ty, fuel);
                st
            },
        }
    }
}

/// [`payload_types`], as a mathematical function.
pub open spec fn payload_types_spec(l: &Option<List<(Option<Symbol>, Ty)>>) -> List<Ty> {
    match l {
        Some(l) => only_types_spec(l),
        None => List::Nil,
    }
}

/// The types of a payload.
pub fn payload_types(l: &Option<List<(Option<Symbol>, Ty)>>) -> (r: List<Ty>)
    ensures
        r == payload_types_spec(l),
{
    match l {
        Some(l) => only_types(l),
        None => List::Nil,
    }
}

/// [`only_types`], as a mathematical function.
pub open spec fn only_types_spec(l: &List<(Option<Symbol>, Ty)>) -> List<Ty>
    decreases l,
{
    match l {
        List::Nil => List::Nil,
        List::Cons(h, t) => List::Cons(h.1, Box::new(only_types_spec(t))),
    }
}

/// Types without their names.
pub fn only_types(l: &List<(Option<Symbol>, Ty)>) -> (r: List<Ty>)
    ensures
        r == only_types_spec(l),
    decreases l,
{
    match l {
        List::Nil => List::Nil,
        List::Cons(h, t) => List::Cons(dup_ty(&h.1), Box::new(only_types(t))),
    }
}

/// [`Inferer::bind_pattern`], as a mathematical function.
pub open spec fn bind_pattern_spec(st: InfererV, env: &InferCx, pat: NodeId, ty: &Ty, fuel: u64) -> InfererV
    decreases fuel,
{
    if fuel == 0 {
        crate::unify::give_up_spec(st)
    } else {
        if crate::subst::is_error_spec(&crate::unify::resolve_spec(st, ty, DEPTH_LIMIT)) {
            let st = bind_pattern_to_error_spec(st, env, pat, (fuel - 1) as u64);
            st
        } else {
            match crate::def::kind_of_spec(env.tables, st.file, pat) {
                Some(NodeKind::BindingPat { .. }) => {
                    let st = bind_name_spec(st, pat, ty);
                    st
                },
                Some(NodeKind::AtPat { name: _, pattern }) => {
                    let st = bind_name_spec(st, pat, ty);
                    let st = bind_pattern_spec(st, env, *pattern, ty, (fuel - 1) as u64);
                    st
                },
                Some(NodeKind::TuplePat { elems }) => {
                    let (st, parts) = crate::unify::fresh_for_spec(st, elems);
                    let (st, _clash) = crate::unify::unify_spec(
                        st,
                        ty,
                        &Ty::Tuple(Box::new(parts)),
                        (fuel - 1) as u64,
                    );
                    let st = bind_each_spec(st, env, elems, &parts, 0, (fuel - 1) as u64);
                    st
                },
                Some(NodeKind::RefPat { pattern }) => {
                    let (st, inner) = crate::unify::fresh_spec(st);
                    let (st, _clash) = crate::unify::unify_spec(
                        st,
                        ty,
                        &Ty::Ptr { mutable: false, inner: Box::new(inner) },
                        (fuel - 1) as u64,
                    );
                    let st = bind_pattern_spec(st, env, *pattern, &inner, (fuel - 1) as u64);
                    st
                },
                Some(NodeKind::OrPat { alternatives }) => {
                    let st = bind_all_spec(st, env, alternatives, ty, (fuel - 1) as u64);
                    st
                },
                Some(NodeKind::VariantPat { name, args }) => match args {
                    VariantPatArgs::Unit => {
                        st
                    },
                    VariantPatArgs::Tuple(elems) => {
                        let (st, payload) = crate::types::variant_payload_spec(
                            st,
                            env,
                            ty,
                            name,
                            (fuel - 1) as u64,
                        );
                        let st = bind_each_spec(
                            st,
                            env,
                            elems,
                            &payload_types_spec(&payload),
                            0,
                            (fuel - 1) as u64,
                        );
                        st
                    },
                    VariantPatArgs::Record { fields, rest: _ } => {
                        let (st, payload) = crate::types::variant_payload_spec(
                            st,
                            env,
                            ty,
                            name,
                            (fuel - 1) as u64,
                        );
                        let st = bind_record_fields_spec(st, env, fields, &payload, (fuel - 1) as u64);
                        st
                    },
                },
                Some(NodeKind::FieldPat { .. }) => {
                    let st = bind_record_field_spec(st, env, pat, &None, (fuel - 1) as u64);
                    st
                },
                Some(NodeKind::StructPat { path: _, fields, rest: _ }) => {
                    let st = bind_struct_fields_spec(st, env, fields, ty, (fuel - 1) as u64);
                    st
                },
                Some(NodeKind::TupleStructPat { path: _, elems, rest: _ }) => {
                    let (st, tys) = crate::types::tuple_struct_tys_spec(st, env, ty, (fuel - 1) as u64);
                    let st = bind_each_spec(st, env, elems, &opt_types_spec(tys), 0, (fuel - 1) as u64);
                    st
                },
                Some(NodeKind::SlicePat { elems, rest }) => {
                    let (st, elem) = match crate::unify::autoderef_spec(st, ty, DEPTH_LIMIT) {
                        Ty::Slice { mutable: _, inner } => (st, *inner),
                        Ty::Array { len: _, mutable: _, inner } => (st, *inner),
                        _ => crate::unify::fresh_spec(st),
                    };
                    let st = bind_all_spec(st, env, elems, &elem, (fuel - 1) as u64);
                    if binds_rest_spec(rest) {
                        let st = bind_name_spec(
                            st,
                            pat,
                            &Ty::Slice { mutable: false, inner: Box::new(elem) },
                        );
                        st
                    } else {
                        st
                    }
                },
                _ => {
                    st
                },
            }
        }
    }
}

/// [`binds_rest`], as a mathematical function.
pub open spec fn binds_rest_spec(rest: &Option<SliceRest>) -> bool {
    match rest {
        Some(r) => r.name.is_some(),
        None => false,
    }
}

/// Whether a slice pattern names what its `..` matches.
pub fn binds_rest(rest: &Option<SliceRest>) -> (r: bool)
    ensures
        r == binds_rest_spec(rest),
{
    match rest {
        Some(r) => r.name.is_some(),
        None => false,
    }
}

/// [`opt_types`], as a mathematical function.
pub open spec fn opt_types_spec(l: Option<List<Ty>>) -> List<Ty> {
    match l {
        Some(l) => l,
        None => List::Nil,
    }
}

/// A list of types that may be absent.
pub fn opt_types(l: Option<List<Ty>>) -> (r: List<Ty>)
    ensures
        r == opt_types_spec(l),
{
    match l {
        Some(l) => l,
        None => List::Nil,
    }
}

/// [`Inferer::bind_struct_fields`], as a mathematical function.
pub open spec fn bind_struct_fields_spec(
    st: InfererV,
    env: &InferCx,
    l: &List<NodeId>,
    ty: &Ty,
    fuel: u64,
) -> InfererV
    decreases fuel, l,
{
    if fuel == 0 {
        crate::unify::give_up_spec(st)
    } else {
        match l {
            List::Nil => {
                st
            },
            List::Cons(f, rest) => {
                let st = match crate::def::kind_of_spec(env.tables, st.file, *f) {
                    Some(NodeKind::FieldPat { name, pattern }) => {
                        let (st, found) = crate::types::field_ty_spec(st, env, ty, name, (fuel - 1) as u64);
                        let (st, fty) = match found {
                            Some(t) => (st, t),
                            None => crate::unify::fresh_spec(st),
                        };
                        match pattern {
                            Some(p) => {
                                let st = bind_pattern_spec(st, env, *p, &fty, (fuel - 1) as u64);
                                st
                            },
                            None => {
                                let st = bind_name_spec(st, *f, &fty);
                                st
                            },
                        }
                    },
                    _ => {
                        st
                    },
                };
                let st = bind_struct_fields_spec(st, env, rest, ty, fuel);
                st
            },
        }
    }
}

/// Whether every local that was an error still is one.
pub open spec fn errors_stay(before: InfererV, after: InfererV) -> bool {
    &&& before.facts == after.facts
    &&& before.file == after.file
    &&& forall|d: DefId|
        crate::unify::get_local_spec(before, d) == Some(Ty::Error) ==> #[trigger] crate::unify::get_local_spec(
            after,
            d,
        ) == Some(Ty::Error)
}

/// Whether a pattern introduces a name of its own, its parts aside.
pub open spec fn names_itself(k: Option<&NodeKind>) -> bool {
    match k {
        Some(NodeKind::BindingPat { .. }) => true,
        Some(NodeKind::AtPat { .. }) => true,
        Some(NodeKind::FieldPat { .. }) => true,
        Some(NodeKind::SlicePat { .. }) => true,
        _ => false,
    }
}

/// [`Inferer::bind_pattern_to_error`], as a mathematical function.
pub open spec fn bind_pattern_to_error_spec(st: InfererV, env: &InferCx, pat: NodeId, fuel: u64) -> InfererV
    decreases fuel,
{
    if fuel == 0 {
        crate::unify::give_up_spec(st)
    } else {
        match crate::def::kind_of_spec(env.tables, st.file, pat) {
            Some(k) => {
                let st = match k {
                    NodeKind::BindingPat { .. } => {
                        let st = bind_name_spec(st, pat, &Ty::Error);
                        st
                    },
                    NodeKind::AtPat { .. } => {
                        let st = bind_name_spec(st, pat, &Ty::Error);
                        st
                    },
                    NodeKind::FieldPat { .. } => {
                        let st = bind_name_spec(st, pat, &Ty::Error);
                        st
                    },
                    NodeKind::SlicePat { .. } => {
                        let st = bind_name_spec(st, pat, &Ty::Error);
                        st
                    },
                    _ => {
                        st
                    },
                };
                let st = bind_all_to_error_spec(st, env, &crate::ast::children_spec(k), (fuel - 1) as u64);
                st
            },
            None => {
                st
            },
        }
    }
}

/// [`Inferer::bind_all_to_error`], as a mathematical function.
pub open spec fn bind_all_to_error_spec(st: InfererV, env: &InferCx, l: &List<NodeId>, fuel: u64) -> InfererV
    decreases fuel, l,
{
    if fuel == 0 {
        crate::unify::give_up_spec(st)
    } else {
        match l {
            List::Nil => {
                st
            },
            List::Cons(h, t) => {
                let st = bind_pattern_to_error_spec(st, env, *h, (fuel - 1) as u64);
                let st = bind_all_to_error_spec(st, env, t, fuel);
                st
            },
        }
    }
}

/// [`opt_payload_named`], as a mathematical function.
pub open spec fn opt_payload_named_spec(l: &Option<List<(Option<Symbol>, Ty)>>, name: &Symbol) -> Option<Ty> {
    match l {
        Some(l) => crate::solve::payload_named_spec(l, name),
        None => None,
    }
}

/// The type a payload that may be unknown declares for a field.
pub fn opt_payload_named(l: &Option<List<(Option<Symbol>, Ty)>>, name: &Symbol) -> (r: Option<Ty>)
    ensures
        r == opt_payload_named_spec(l, name),
{
    match l {
        Some(l) => payload_named(l, name),
        None => None,
    }
}

/// [`Inferer::bind_record_field`], as a mathematical function.
pub open spec fn bind_record_field_spec(
    st: InfererV,
    env: &InferCx,
    f: NodeId,
    payload: &Option<List<(Option<Symbol>, Ty)>>,
    fuel: u64,
) -> InfererV
    decreases fuel,
{
    if fuel == 0 {
        crate::unify::give_up_spec(st)
    } else {
        match crate::def::kind_of_spec(env.tables, st.file, f) {
            Some(NodeKind::FieldPat { name, pattern }) => {
                let (st, fty) = match opt_payload_named_spec(payload, name) {
                    Some(t) => (st, t),
                    None => crate::unify::fresh_spec(st),
                };
                match pattern {
                    Some(p) => {
                        let st = bind_pattern_spec(st, env, *p, &fty, (fuel - 1) as u64);
                        st
                    },
                    None => {
                        let st = bind_name_spec(st, f, &fty);
                        st
                    },
                }
            },
            _ => {
                st
            },
        }
    }
}

/// [`Inferer::bind_record_fields`], as a mathematical function.
pub open spec fn bind_record_fields_spec(
    st: InfererV,
    env: &InferCx,
    l: &List<NodeId>,
    payload: &Option<List<(Option<Symbol>, Ty)>>,
    fuel: u64,
) -> InfererV
    decreases fuel, l,
{
    if fuel == 0 {
        crate::unify::give_up_spec(st)
    } else {
        match l {
            List::Nil => {
                st
            },
            List::Cons(h, t) => {
                let st = bind_record_field_spec(st, env, *h, payload, (fuel - 1) as u64);
                let st = bind_record_fields_spec(st, env, t, payload, fuel);
                st
            },
        }
    }
}

impl Inferer {
    /// Check a value against what a function returns. A declared `never` is no
    /// impossible demand here: whether the body honours it is a question of what can
    /// be reached.
    pub fn expect_return(&mut self, env: &InferCx, node: NodeId, actual: &Ty, expected: &Ty, fuel: u64)
        ensures
            final(self)@ == expect_return_spec(old(self)@, env, node, actual, expected, fuel),
            crate::keeping::kept(old(self)@, final(self)@),
        decreases fuel,
    {
        if fuel == 0 {
            self.give_up();
            return;
        }
        if is_never(&self.resolve(expected, DEPTH_LIMIT)) {
            let _clash = self.unify(actual, expected, (fuel - 1) as u64);
        } else {
            self.expect(env, node, actual, expected, (fuel - 1) as u64);
        }
    }

    /// Make a value's type meet what its position wants, by unification or else by
    /// a coercion, and complain where neither does. Nothing converts to `never`.
    pub fn expect(&mut self, env: &InferCx, node: NodeId, actual: &Ty, expected: &Ty, fuel: u64)
        ensures
            final(self)@ == expect_spec(old(self)@, env, node, actual, expected, fuel),
            crate::keeping::kept(old(self)@, final(self)@),
        decreases fuel,
    {
        if fuel == 0 {
            self.give_up();
            return;
        }
        let want = self.resolve(expected, DEPTH_LIMIT);
        let got = self.resolve(actual, DEPTH_LIMIT);
        if is_never(&want) && !is_never(&got) && !is_error(&got) {
            let msg = if is_var(&got) {
                say("expected `never`: `never` is uninhabited, so no value has that type")
            } else {
                say_ty(
                    "expected `never`, found `",
                    got,
                    "`: `never` is uninhabited, so no value has that type",
                )
            };
            self.report(env, node, msg);
            return;
        }
        let snapshot = self.snapshot();
        let clashed = self.unify(actual, expected, (fuel - 1) as u64);
        match clashed {
            None => {},
            Some((a, b)) => {
                self.rollback(snapshot);
                let coerced = self.try_coerce(env, node, actual, expected, (fuel - 1) as u64);
                if !coerced {
                    self.report(
                        env,
                        node,
                        list5(
                            Part::Text("type mismatch: expected `"),
                            Part::Ty(self.resolve(&b, DEPTH_LIMIT)),
                            Part::Text("`, found `"),
                            Part::Ty(self.resolve(&a, DEPTH_LIMIT)),
                            Part::Text("`"),
                        ),
                    );
                }
            },
        }
    }

    /// Try each coercion in turn: widening an integer, viewing an array as a slice,
    /// unsizing to a trait object, naming an anonymous struct, and an `@using`
    /// upcast.
    pub fn try_coerce(
        &mut self,
        env: &InferCx,
        node: NodeId,
        actual: &Ty,
        expected: &Ty,
        fuel: u64,
    ) -> (r: bool)
        ensures
            (final(self)@, r) == try_coerce_spec(old(self)@, env, node, actual, expected, fuel),
            crate::keeping::kept(old(self)@, final(self)@),
        decreases fuel,
    {
        if fuel == 0 {
            self.give_up();
            return false;
        }
        let widened = self.try_int_widen(env, node, actual, expected);
        if widened {
            return true;
        }
        let sliced = self.try_array_to_slice(env, node, actual, expected);
        if sliced {
            return true;
        }
        let unsized_ptr = self.try_dyn_coerce(env, node, actual, expected, (fuel - 1) as u64);
        if unsized_ptr {
            return true;
        }
        let named = self.try_anon_to_named(env, node, actual, expected, (fuel - 1) as u64);
        if named {
            return true;
        }
        self.try_upcast(env, node, actual, expected, (fuel - 1) as u64)
    }

    /// A narrower integer may stand where a wider one is wanted. The pointer-sized
    /// ones take no part.
    pub fn try_int_widen(&mut self, env: &InferCx, node: NodeId, actual: &Ty, expected: &Ty) -> (r: bool)
        ensures
            (final(self)@, r) == try_int_widen_spec(old(self)@, env, node, actual, expected),
            crate::keeping::kept(old(self)@, final(self)@),
    {
        let got = self.shallow(actual, DEPTH_LIMIT);
        let want = self.shallow(expected, DEPTH_LIMIT);
        if is_ptr_sized(env.tables, &got) || is_ptr_sized(env.tables, &want) {
            return false;
        }
        match (int_parts(&got), int_parts(&want)) {
            (Some(from), Some(to)) => if int_widens(from, to) {
                let c = self.unify(&want, expected, DEPTH_LIMIT);
                if c.is_none() {
                    self.set_coercion(self.file, node, Coercion { to: want });
                    true
                } else {
                    false
                }
            } else {
                false
            },
            _ => false,
        }
    }

    /// A fixed array may stand where a read-only slice is wanted: it is taken whole.
    pub fn try_array_to_slice(&mut self, env: &InferCx, node: NodeId, actual: &Ty, expected: &Ty) -> (r: bool)
        ensures
            (final(self)@, r) == try_array_to_slice_spec(old(self)@, env, node, actual, expected),
            crate::keeping::kept(old(self)@, final(self)@),
    {
        match (self.shallow(actual, DEPTH_LIMIT), self.shallow(expected, DEPTH_LIMIT)) {
            (
                Ty::Array { len: _, mutable: _, inner },
                Ty::Slice { mutable: false, inner: want },
            ) => match lang_def(env.tables, "range") {
                Some(range) => {
                    let snapshot = self.snapshot();
                    let c = self.unify(&inner, &want, DEPTH_LIMIT);
                    if c.is_none() {
                        let to = self.resolve(expected, DEPTH_LIMIT);
                        let range = Ty::Nominal { def: range, args: Box::new(single(self.usize_ty())) };
                        self.set_slice_coerce(self.file, node, SliceCoerce { to: to, range: range });
                        true
                    } else {
                        self.rollback(snapshot);
                        false
                    }
                },
                None => false,
            },
            _ => false,
        }
    }

    /// Make a signature agree with everything a trait object of `Func` pins.
    pub fn unify_pins(&mut self, l: &List<(Symbol, Ty)>, params: &List<Ty>, ret: &Ty, fuel: u64) -> (r: bool)
        ensures
            (final(self)@, r) == unify_pins_spec(old(self)@, l, params, ret, fuel),
            crate::keeping::kept(old(self)@, final(self)@),
        decreases fuel, l,
    {
        if fuel == 0 {
            self.give_up();
            return false;
        }
        match l {
            List::Nil => true,
            List::Cons(h, rest) => if sym_is(&h.0, "Args") {
                let c = self.unify(&args_tuple(params), &h.1, (fuel - 1) as u64);
                if c.is_none() {
                    self.unify_pins(rest, params, ret, fuel)
                } else {
                    false
                }
            } else if sym_is(&h.0, "Output") {
                let c = self.unify(ret, &h.1, (fuel - 1) as u64);
                if c.is_none() {
                    self.unify_pins(rest, params, ret, fuel)
                } else {
                    false
                }
            } else {
                false
            },
        }
    }

    /// The pointees of an unsizing, where the shapes and permissions allow one: a
    /// known type on the left and a trait object on the right.
    pub fn unsizing(&self, actual: &Ty, expected: &Ty) -> (r: Option<(Ty, Ty)>)
        ensures
            r == unsizing_spec(self@, actual, expected),
    {
        match (self.shallow(actual, DEPTH_LIMIT), self.shallow(expected, DEPTH_LIMIT)) {
            (Ty::Ptr { mutable, inner }, Ty::Ptr { mutable: em, inner: ei }) => if em && !mutable {
                None
            } else {
                let object = self.shallow(&ei, DEPTH_LIMIT);
                let concrete = self.shallow(&inner, DEPTH_LIMIT);
                if is_var(&concrete) || is_error(&concrete) {
                    None
                } else {
                    Some((concrete, object))
                }
            },
            _ => None,
        }
    }

    /// A pointer may stand where a pointer to a trait object is wanted, when its
    /// pointee implements the trait. Of `Func` the pointee's own call is the proof.
    pub fn try_dyn_coerce(
        &mut self,
        env: &InferCx,
        node: NodeId,
        actual: &Ty,
        expected: &Ty,
        fuel: u64,
    ) -> (r: bool)
        ensures
            (final(self)@, r) == try_dyn_coerce_spec(old(self)@, env, node, actual, expected, fuel),
            crate::keeping::kept(old(self)@, final(self)@),
        decreases fuel,
    {
        if fuel == 0 {
            self.give_up();
            return false;
        }
        match self.unsizing(actual, expected) {
            Some((concrete, object)) => {
                match object_parts(&object) {
                    Some((trait_def, pins)) => {
                        if lang_def(env.tables, "func") == Some(trait_def) {
                            return self.try_func_coerce(
                                env,
                                node,
                                trait_def,
                                concrete,
                                object,
                                &pins,
                                (fuel - 1) as u64,
                            );
                        }
                        let proved = if self.param_has_bound(env, &concrete, trait_def) {
                            true
                        } else {
                            let s = self.select(env, &concrete, trait_def, &List::Nil, (fuel - 1) as u64);
                            is_found(s)
                        };
                        if proved {
                            self.set_dyn_coerce(
                                self.file,
                                node,
                                DynCoerce { trait_def: trait_def, object: object, concrete: concrete },
                            );
                            true
                        } else {
                            false
                        }
                    },
                    _ => {
                        false
                    },
                }
            },
            _ => {
                false
            },
        }
    }

    /// A closure may stand where a trait object of `Func` is wanted, when its call
    /// agrees with what the object pins.
    pub fn try_func_coerce(
        &mut self,
        env: &InferCx,
        node: NodeId,
        trait_def: DefId,
        concrete: Ty,
        object: Ty,
        pins: &List<(Symbol, Ty)>,
        fuel: u64,
    ) -> (r: bool)
        ensures
            (final(self)@, r) == try_func_coerce_spec(
                old(self)@,
                env,
                node,
                trait_def,
                concrete,
                object,
                pins,
                fuel,
            ),
            crate::keeping::kept(old(self)@, final(self)@),
        decreases fuel,
    {
        if fuel == 0 {
            self.give_up();
            return false;
        }
        if !is_closure_ty(env.tables, &concrete) {
            return false;
        }
        let sig = self.func_value_sig(env, &concrete, (fuel - 1) as u64);
        match sig {
            Some((params, ret)) => {
                let snapshot = self.snapshot();
                let fits = self.unify_pins(pins, &params, &ret, (fuel - 1) as u64);
                if fits {
                    let shown = self.resolve(&object, DEPTH_LIMIT);
                    self.set_dyn_coerce(
                        self.file,
                        node,
                        DynCoerce { trait_def: trait_def, object: shown, concrete: concrete },
                    );
                    true
                } else {
                    self.rollback(snapshot);
                    false
                }
            },
            _ => {
                false
            },
        }
    }

    /// A struct may stand where its `@using` field's type is wanted, by one hop. Of
    /// a pointer the field's address is taken.
    pub fn try_upcast(
        &mut self,
        env: &InferCx,
        node: NodeId,
        actual: &Ty,
        expected: &Ty,
        fuel: u64,
    ) -> (r: bool)
        ensures
            (final(self)@, r) == try_upcast_spec(old(self)@, env, node, actual, expected, fuel),
            crate::keeping::kept(old(self)@, final(self)@),
        decreases fuel,
    {
        if fuel == 0 {
            self.give_up();
            return false;
        }
        match self.nominal_head(actual) {
            Some((head, ptr)) => {
                match using_field_of(env.tables, head) {
                    Some(field) => {
                        let fty = self.field_ty(env, actual, &def_name(env.tables, field), (fuel - 1) as u64);
                        match fty {
                            Some(fty) => {
                                let target = behind(ptr, fty);
                                let snapshot = self.snapshot();
                                let c = self.unify(&target, expected, (fuel - 1) as u64);
                                if c.is_none() {
                                    self.set_upcast(
                                        self.file,
                                        node,
                                        Upcast { field: field, through_ptr: ptr.is_some(), target: target },
                                    );
                                    true
                                } else {
                                    self.rollback(snapshot);
                                    false
                                }
                            },
                            _ => {
                                false
                            },
                        }
                    },
                    _ => {
                        false
                    },
                }
            },
            _ => {
                false
            },
        }
    }

    /// Unify each field with the one a struct declares under its name.
    pub fn unify_fields(&mut self, env: &InferCx, l: &List<(Symbol, Ty)>, want: &Ty, fuel: u64) -> (r: bool)
        ensures
            (final(self)@, r) == unify_fields_spec(old(self)@, env, l, want, fuel),
            crate::keeping::kept(old(self)@, final(self)@),
        decreases fuel, l,
    {
        if fuel == 0 {
            self.give_up();
            return false;
        }
        match l {
            List::Nil => true,
            List::Cons(h, rest) => {
                let ft = self.field_ty(env, want, &h.0, (fuel - 1) as u64);
                match ft {
                    Some(ft) => {
                        let c = self.unify(&h.1, &ft, (fuel - 1) as u64);
                        if c.is_none() {
                            self.unify_fields(env, rest, want, fuel)
                        } else {
                            false
                        }
                    },
                    None => false,
                }
            },
        }
    }

    /// An anonymous struct may stand where a named one with the same fields is
    /// wanted, and never the other way round.
    pub fn try_anon_to_named(
        &mut self,
        env: &InferCx,
        node: NodeId,
        actual: &Ty,
        expected: &Ty,
        fuel: u64,
    ) -> (r: bool)
        ensures
            (final(self)@, r) == try_anon_to_named_spec(old(self)@, env, node, actual, expected, fuel),
            !r ==> crate::unify::undone(old(self)@, final(self)@),
            crate::keeping::kept(old(self)@, final(self)@),
        decreases fuel,
    {
        if fuel == 0 {
            self.give_up();
            return false;
        }
        proof {
            reveal(crate::keeping::kept);
        }
        let want = self.shallow(expected, DEPTH_LIMIT);
        match (self.shallow(actual, DEPTH_LIMIT), &want) {
            (Ty::Struct(fields), Ty::Nominal { def, args: _ }) => {
                if def_kind(env.tables, *def) != DefKind::Struct {
                    return false;
                }
                let declared = record_field_names(env.tables, *def);
                if list_len(&declared) != list_len(&fields) || !all_named(&declared, &fields) {
                    return false;
                }
                let snapshot = self.snapshot();
                let fits = self.unify_fields(env, &fields, &want, (fuel - 1) as u64);
                if fits {
                    let to = self.resolve(&want, DEPTH_LIMIT);
                    self.set_coercion(self.file, node, Coercion { to: to });
                    true
                } else {
                    self.rollback(snapshot);
                    false
                }
            },
            _ => false,
        }
    }

    /// Bind the name a node declares.
    pub fn bind_name(&mut self, node: NodeId, ty: &Ty)
        ensures
            final(self)@ == bind_name_spec(old(self)@, node, ty),
            crate::keeping::kept(old(self)@, final(self)@),
    {
        match self.def_of(node) {
            Some(def) => {
                self.set_local(def, dup_ty(ty));
            },
            None => {},
        }
    }

    /// Bind patterns to types, position by position, with a variable where a type is
    /// missing.
    pub fn bind_each(&mut self, env: &InferCx, l: &List<NodeId>, tys: &List<Ty>, i: u64, fuel: u64)
        ensures
            final(self)@ == bind_each_spec(old(self)@, env, l, tys, i, fuel),
            crate::keeping::kept(old(self)@, final(self)@),
        decreases fuel, l,
    {
        if fuel == 0 {
            self.give_up();
            return;
        }
        match l {
            List::Nil => {},
            List::Cons(p, rest) => {
                let ty = match nth(tys, i) {
                    Some(t) => dup_ty(t),
                    None => self.fresh(),
                };
                self.bind_pattern(env, *p, &ty, (fuel - 1) as u64);
                self.bind_each(env, rest, tys, succ(i), fuel);
            },
        }
    }

    /// Bind every pattern to one type.
    pub fn bind_all(&mut self, env: &InferCx, l: &List<NodeId>, ty: &Ty, fuel: u64)
        ensures
            final(self)@ == bind_all_spec(old(self)@, env, l, ty, fuel),
            crate::keeping::kept(old(self)@, final(self)@),
        decreases fuel, l,
    {
        if fuel == 0 {
            self.give_up();
            return;
        }
        match l {
            List::Nil => {},
            List::Cons(p, rest) => {
                self.bind_pattern(env, *p, ty, (fuel - 1) as u64);
                self.bind_all(env, rest, ty, fuel);
            },
        }
    }

    /// Bind the names a pattern introduces, against the type it is matched with.
    pub fn bind_pattern(&mut self, env: &InferCx, pat: NodeId, ty: &Ty, fuel: u64)
        ensures
            final(self)@ == bind_pattern_spec(old(self)@, env, pat, ty, fuel),
            crate::keeping::kept(old(self)@, final(self)@),
        decreases fuel,
    {
        if fuel == 0 {
            self.give_up();
            return;
        }
        if is_error(&self.resolve(ty, DEPTH_LIMIT)) {
            self.bind_pattern_to_error(env, pat, (fuel - 1) as u64);
            return;
        }
        match kind_of(env.tables, self.file, pat) {
            Some(NodeKind::BindingPat { .. }) => {
                self.bind_name(pat, ty);
            },
            Some(NodeKind::AtPat { name: _, pattern }) => {
                self.bind_name(pat, ty);
                self.bind_pattern(env, *pattern, ty, (fuel - 1) as u64);
            },
            Some(NodeKind::TuplePat { elems }) => {
                let parts = self.fresh_for(elems);
                let _clash = self.unify(ty, &Ty::Tuple(Box::new(dup_tys(&parts))), (fuel - 1) as u64);
                self.bind_each(env, elems, &parts, 0, (fuel - 1) as u64);
            },
            Some(NodeKind::RefPat { pattern }) => {
                let inner = self.fresh();
                let _clash = self.unify(
                    ty,
                    &Ty::Ptr { mutable: false, inner: Box::new(dup_ty(&inner)) },
                    (fuel - 1) as u64,
                );
                self.bind_pattern(env, *pattern, &inner, (fuel - 1) as u64);
            },
            Some(NodeKind::OrPat { alternatives }) => {
                self.bind_all(env, alternatives, ty, (fuel - 1) as u64);
            },
            Some(NodeKind::VariantPat { name, args }) => match args {
                VariantPatArgs::Unit => {},
                VariantPatArgs::Tuple(elems) => {
                    let payload = self.variant_payload(env, ty, name, (fuel - 1) as u64);
                    self.bind_each(env, elems, &payload_types(&payload), 0, (fuel - 1) as u64);
                },
                VariantPatArgs::Record { fields, rest: _ } => {
                    let payload = self.variant_payload(env, ty, name, (fuel - 1) as u64);
                    self.bind_record_fields(env, fields, &payload, (fuel - 1) as u64);
                },
            },
            Some(NodeKind::FieldPat { .. }) => {
                self.bind_record_field(env, pat, &None, (fuel - 1) as u64);
            },
            Some(NodeKind::StructPat { path: _, fields, rest: _ }) => {
                self.bind_struct_fields(env, fields, ty, (fuel - 1) as u64);
            },
            Some(NodeKind::TupleStructPat { path: _, elems, rest: _ }) => {
                let tys = self.tuple_struct_tys(env, ty, (fuel - 1) as u64);
                self.bind_each(env, elems, &opt_types(tys), 0, (fuel - 1) as u64);
            },
            Some(NodeKind::SlicePat { elems, rest }) => {
                let elem = match self.autoderef(ty, DEPTH_LIMIT) {
                    Ty::Slice { mutable: _, inner } => *inner,
                    Ty::Array { len: _, mutable: _, inner } => *inner,
                    _ => self.fresh(),
                };
                self.bind_all(env, elems, &elem, (fuel - 1) as u64);
                if binds_rest(rest) {
                    self.bind_name(pat, &Ty::Slice { mutable: false, inner: Box::new(elem) });
                }
            },
            _ => {},
        }
    }

    /// Bind each field of a struct pattern to its declared type.
    pub fn bind_struct_fields(&mut self, env: &InferCx, l: &List<NodeId>, ty: &Ty, fuel: u64)
        ensures
            final(self)@ == bind_struct_fields_spec(old(self)@, env, l, ty, fuel),
            crate::keeping::kept(old(self)@, final(self)@),
        decreases fuel, l,
    {
        if fuel == 0 {
            self.give_up();
            return;
        }
        match l {
            List::Nil => {},
            List::Cons(f, rest) => {
                match kind_of(env.tables, self.file, *f) {
                    Some(NodeKind::FieldPat { name, pattern }) => {
                        let found = self.field_ty(env, ty, name, (fuel - 1) as u64);
                        let fty = match found {
                            Some(t) => t,
                            None => self.fresh(),
                        };
                        match pattern {
                            Some(p) => {
                                self.bind_pattern(env, *p, &fty, (fuel - 1) as u64);
                            },
                            None => {
                                self.bind_name(*f, &fty);
                            },
                        }
                    },
                    _ => {},
                }
                self.bind_struct_fields(env, rest, ty, fuel);
            },
        }
    }

    /// Bind every name in a pattern to the error type: what it destructures is one.
    pub fn bind_pattern_to_error(&mut self, env: &InferCx, pat: NodeId, fuel: u64)
        ensures
            final(self)@ == bind_pattern_to_error_spec(old(self)@, env, pat, fuel),
            final(self)@.diags == old(self)@.diags,
            errors_stay(old(self)@, final(self)@),
            fuel > 0 && names_itself(crate::def::kind_of_spec(env.tables, old(self)@.file, pat)) ==> match crate::decls::def_of_spec(old(self)@, pat) {
                Some(d) => crate::unify::get_local_spec(final(self)@, d) == Some(Ty::Error),
                None => true,
            },
            crate::keeping::kept(old(self)@, final(self)@),
        decreases fuel,
    {
        if fuel == 0 {
            self.give_up();
            return;
        }
        proof {
            reveal(crate::keeping::kept);
        }
        match kind_of(env.tables, self.file, pat) {
            Some(k) => {
                match k {
                    NodeKind::BindingPat { .. } => {
                        self.bind_name(pat, &Ty::Error);
                    },
                    NodeKind::AtPat { .. } => {
                        self.bind_name(pat, &Ty::Error);
                    },
                    NodeKind::FieldPat { .. } => {
                        self.bind_name(pat, &Ty::Error);
                    },
                    NodeKind::SlicePat { .. } => {
                        self.bind_name(pat, &Ty::Error);
                    },
                    _ => {},
                }
                self.bind_all_to_error(env, &children(k), (fuel - 1) as u64);
            },
            None => {},
        }
    }

    /// The same for each of a list.
    pub fn bind_all_to_error(&mut self, env: &InferCx, l: &List<NodeId>, fuel: u64)
        ensures
            final(self)@ == bind_all_to_error_spec(old(self)@, env, l, fuel),
            final(self)@.diags == old(self)@.diags,
            errors_stay(old(self)@, final(self)@),
            crate::keeping::kept(old(self)@, final(self)@),
        decreases fuel, l,
    {
        if fuel == 0 {
            self.give_up();
            return;
        }
        proof {
            reveal(crate::keeping::kept);
        }
        match l {
            List::Nil => {},
            List::Cons(h, t) => {
                self.bind_pattern_to_error(env, *h, (fuel - 1) as u64);
                self.bind_all_to_error(env, t, fuel);
            },
        }
    }

    /// Bind one field of a record pattern, typed by name from the variant's payload.
    pub fn bind_record_field(
        &mut self,
        env: &InferCx,
        f: NodeId,
        payload: &Option<List<(Option<Symbol>, Ty)>>,
        fuel: u64,
    )
        ensures
            final(self)@ == bind_record_field_spec(old(self)@, env, f, payload, fuel),
            crate::keeping::kept(old(self)@, final(self)@),
        decreases fuel,
    {
        if fuel == 0 {
            self.give_up();
            return;
        }
        match kind_of(env.tables, self.file, f) {
            Some(NodeKind::FieldPat { name, pattern }) => {
                let fty = match opt_payload_named(payload, name) {
                    Some(t) => t,
                    None => self.fresh(),
                };
                match pattern {
                    Some(p) => {
                        self.bind_pattern(env, *p, &fty, (fuel - 1) as u64);
                    },
                    None => {
                        self.bind_name(f, &fty);
                    },
                }
            },
            _ => {},
        }
    }

    /// The same for each of a list.
    pub fn bind_record_fields(
        &mut self,
        env: &InferCx,
        l: &List<NodeId>,
        payload: &Option<List<(Option<Symbol>, Ty)>>,
        fuel: u64,
    )
        ensures
            final(self)@ == bind_record_fields_spec(old(self)@, env, l, payload, fuel),
            crate::keeping::kept(old(self)@, final(self)@),
        decreases fuel, l,
    {
        if fuel == 0 {
            self.give_up();
            return;
        }
        match l {
            List::Nil => {},
            List::Cons(h, t) => {
                self.bind_record_field(env, *h, payload, (fuel - 1) as u64);
                self.bind_record_fields(env, t, payload, fuel);
            },
        }
    }
}

} // verus!
