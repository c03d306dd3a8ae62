//! What a file declares, checked and recorded where it is written: the members
//! of impls and types, the tags of variants, and aliases.

use vstd::prelude::*;

use crate::ast::{NodeKind, VariantPayload};
use crate::bigint::int_to_i128;
use crate::calls::assocs_of;
use crate::decls::has_body;
use crate::def::{
    bound_rhs, def_count, def_file, def_kind, def_node, def_place, dup_defs, find_member, func_of, get_def,
    kind_of, node_count, resolve_alias, DefKind, ImplInfo, Tables,
};
use crate::diag::{say, say_name, Part};
use crate::facts::{Generics, VariantTag};
use crate::ids::{def_at, node_at, DefId, FileId, NodeId};
use crate::list::{append, is_empty, list3, list4, list5, list_len, nth, single, succ, DEPTH_LIMIT, List};
use crate::solve::get_impl;
use crate::subst::{bind_const, bind_ty, dup_subst, no_subst, rigid_self_in, subst_ty, Subst};
use crate::symbol::{dup_sym, Symbol};
use crate::ty::{nominal, nominals, Const, ConstValue, Ty};
use crate::unify::{InferCx, Inferer, InfererV};

verus! {

broadcast use {
    crate::keeping::kept_by_both,
    crate::keeping::kept_by_nothing,
    crate::keeping::loops_stand_on,
    crate::keeping::loops_stand_still,
};

// Impls against their traits.

/// [`Inferer::bind_trait_generics`], as a mathematical function.
pub open spec fn bind_trait_generics_spec(
    st: InfererV,
    env: &InferCx,
    generics: &List<DefId>,
    imp: &ImplInfo,
    i: u64,
    map: Subst,
) -> (InfererV, Subst)
    decreases generics,
{
    match generics {
        List::Nil => (st, map),
        List::Cons(g, rest) => {
            let (st, args) = crate::solve::impl_trait_args_spec(st, env, imp, DEPTH_LIMIT);
            let (st, t) = match crate::list::nth_spec(&args, i) {
                Some(t) => (st, crate::subst::subst_ty_spec(t, &map)),
                None => crate::unify::fresh_spec(st),
            };
            bind_trait_generics_spec(
                st,
                env,
                rest,
                imp,
                crate::list::succ_spec(i),
                crate::subst::bind_ty_spec(map, *g, t),
            )
        },
    }
}

/// [`Inferer::bind_trait_assocs`], as a mathematical function.
pub open spec fn bind_trait_assocs_spec(
    st: InfererV,
    env: &InferCx,
    assocs: &List<(Symbol, DefId)>,
    imp: &ImplInfo,
    map: Subst,
) -> (InfererV, Subst)
    decreases assocs,
{
    match assocs {
        List::Nil => (st, map),
        List::Cons(h, rest) => {
            let (st, bound) = crate::solve::impl_assoc_spec(st, env, imp, &h.0, DEPTH_LIMIT);
            let (st, t) = match bound {
                Some(t) => (st, crate::subst::subst_ty_spec(&t, &map)),
                None => crate::unify::fresh_spec(st),
            };
            bind_trait_assocs_spec(st, env, rest, imp, crate::subst::bind_ty_spec(map, h.1, t))
        },
    }
}

/// [`Inferer::member_sig`], as a mathematical function.
pub open spec fn member_sig_spec(st: InfererV, env: &InferCx, m: DefId) -> (InfererV, Option<Ty>) {
    match crate::def::def_kind_spec(env.tables, m) {
        DefKind::Func => {
            let (st, t) = crate::types::func_def_ty_spec(st, env, m, DEPTH_LIMIT);
            (st, Some(t))
        },
        DefKind::Const => crate::types::declared_member_ty_spec(st, env, m, DEPTH_LIMIT),
        _ => (st, None),
    }
}

/// [`align_generics`], as a mathematical function.
pub open spec fn align_generics_spec(t: &Tables, want: &List<DefId>, got: &List<DefId>, map: Subst) -> Subst
    decreases want,
{
    match (want, got) {
        (List::Cons(w, ws), List::Cons(g, gs)) => if crate::def::def_kind_spec(t, *w) == DefKind::ConstParam {
            align_generics_spec(t, ws, gs, crate::subst::bind_const_spec(map, *g, Const::Param(*w)))
        } else {
            align_generics_spec(t, ws, gs, crate::subst::bind_ty_spec(map, *g, crate::ty::nominal_spec(*w)))
        },
        _ => map,
    }
}

/// Name the generics of a supplied method by those of the required one, position
/// by position.
pub fn align_generics(t: &Tables, want: &List<DefId>, got: &List<DefId>, map: Subst) -> (r: Subst)
    ensures
        r == align_generics_spec(t, want, got, map),
    decreases want,
{
    match (want, got) {
        (List::Cons(w, ws), List::Cons(g, gs)) => if def_kind(t, *w) == DefKind::ConstParam {
            align_generics(t, ws, gs, bind_const(map, *g, Const::Param(*w)))
        } else {
            align_generics(t, ws, gs, bind_ty(map, *g, nominal(*w)))
        },
        _ => map,
    }
}

/// [`target_node`], as a mathematical function.
pub open spec fn target_node_spec(imp: &ImplInfo) -> Option<NodeId> {
    match &imp.syntax {
        Some(sx) => Some(sx.self_node),
        None => None,
    }
}

/// Where an impl's target is written.
pub fn target_node(imp: &ImplInfo) -> (r: Option<NodeId>)
    ensures
        r == target_node_spec(imp),
{
    match &imp.syntax {
        Some(sx) => Some(sx.self_node),
        None => None,
    }
}

/// [`members_of`], as a mathematical function.
pub open spec fn members_of_spec(t: &Tables, d: DefId) -> List<(Symbol, DefId)> {
    match crate::def::get_def_spec(t, d) {
        Some(def) => def.members,
        None => List::Nil,
    }
}

/// The members of a definition.
pub fn members_of(t: &Tables, d: DefId) -> (r: List<(Symbol, DefId)>)
    ensures
        r == members_of_spec(t, d),
{
    match get_def(t, d) {
        Some(def) => dup_members(&def.members),
        None => List::Nil,
    }
}

/// A copy of a list of members.
pub fn dup_members(l: &List<(Symbol, DefId)>) -> (r: List<(Symbol, DefId)>)
    ensures
        r == *l,
    decreases l,
{
    match l {
        List::Nil => List::Nil,
        List::Cons(h, t) => List::Cons((dup_sym(&h.0), h.1), Box::new(dup_members(t))),
    }
}

/// [`Inferer::agree`], as a mathematical function.
pub open spec fn agree_spec(st: InfererV, a: &Ty, b: &Ty) -> (InfererV, bool) {
    let snapshot = crate::unify::snapshot_spec(st);
    let (st, clash) = crate::unify::unify_spec(st, a, b, DEPTH_LIMIT);
    let st = crate::unify::rollback_spec(st, snapshot);
    (st, clash.is_none())
}

/// [`Inferer::check_member`], as a mathematical function.
pub open spec fn check_member_spec(
    st: InfererV,
    env: &InferCx,
    imp: &ImplInfo,
    trait_def: DefId,
    name: &Symbol,
    required: DefId,
    supplied: DefId,
    map: &Subst,
) -> InfererV {
    let (st, want) = member_sig_spec(st, env, required);
    match want {
        Some(want) => {
            let (st, got) = member_sig_spec(st, env, supplied);
            match got {
                Some(got) => {
                    let aligned = if crate::def::def_kind_spec(env.tables, required) == DefKind::Func {
                        align_generics_spec(
                            env.tables,
                            &crate::decls::declared_generics_spec(st, env, required),
                            &crate::decls::declared_generics_spec(st, env, supplied),
                            (*map),
                        )
                    } else {
                        (*map)
                    };
                    let want = crate::subst::subst_ty_spec(&want, &aligned);
                    let got = crate::subst::subst_ty_spec(&got, &aligned);
                    let (st, same) = agree_spec(st, &want, &got);
                    if !same {
                        let place = match crate::def::def_node_spec(env.tables, supplied) {
                            Some(n) => Some(n),
                            None => target_node_spec(imp),
                        };
                        match place {
                            Some(at) => {
                                let msg = crate::list::append_spec(
                                    crate::list::list5_spec(
                                        Part::Text("`"),
                                        Part::Name((*name)),
                                        Part::Text("` does not match the declaration in `"),
                                        Part::Path(trait_def),
                                        Part::Text("`: expected `"),
                                    ),
                                    crate::list::list4_spec(
                                        Part::Signature(crate::unify::resolve_spec(st, &want, DEPTH_LIMIT)),
                                        Part::Text("`, found `"),
                                        Part::Signature(crate::unify::resolve_spec(st, &got, DEPTH_LIMIT)),
                                        Part::Text("`"),
                                    ),
                                );
                                let st = crate::unify::report_in_spec(st, env, imp.file, at, msg);
                                st
                            },
                            None => {
                                st
                            },
                        }
                    } else {
                        st
                    }
                },
                _ => {
                    st
                },
            }
        },
        _ => {
            st
        },
    }
}

/// [`Inferer::check_members`], as a mathematical function.
pub open spec fn check_members_spec(
    st: InfererV,
    env: &InferCx,
    l: &List<(Symbol, DefId)>,
    imp: &ImplInfo,
    trait_def: DefId,
    map: &Subst,
) -> InfererV
    decreases l,
{
    match l {
        List::Nil => {
            st
        },
        List::Cons(h, rest) => {
            let st = match crate::def::find_member_spec(&imp.members, &h.0) {
                Some(supplied) => {
                    let st = check_member_spec(st, env, imp, trait_def, &h.0, h.1, supplied, map);
                    st
                },
                None => {
                    st
                },
            };
            let st = check_members_spec(st, env, rest, imp, trait_def, map);
            st
        },
    }
}

/// [`Inferer::check_impl_conformance`], as a mathematical function.
pub open spec fn check_impl_conformance_spec(st: InfererV, env: &InferCx, i: u64) -> InfererV {
    match crate::solve::get_impl_spec(env, i) {
        Some(imp) => match imp.trait_def {
            Some(t) => {
                let trait_def = crate::def::resolve_alias_spec(env.tables, t);
                let (st, map) = crate::solve::fresh_impl_map_spec(
                    st,
                    env,
                    &imp.generics,
                    crate::subst::no_subst_spec(),
                );
                let (st, self_ty) = crate::solve::impl_self_ty_spec(st, env, imp, &map, DEPTH_LIMIT);
                let map = crate::subst::bind_ty_spec(map, trait_def, self_ty);
                let generics = crate::decls::declared_generics_spec(st, env, trait_def);
                let (st, map) = bind_trait_generics_spec(st, env, &generics, imp, 0, map);
                let (st, map) = bind_trait_assocs_spec(
                    st,
                    env,
                    &crate::calls::assocs_of_spec(env.tables, trait_def),
                    imp,
                    map,
                );
                let st = check_members_spec(
                    st,
                    env,
                    &members_of_spec(env.tables, trait_def),
                    imp,
                    trait_def,
                    &map,
                );
                st
            },
            None => {
                st
            },
        },
        None => {
            st
        },
    }
}

/// [`Inferer::check_own_impl`], as a mathematical function.
pub open spec fn check_own_impl_spec(st: InfererV, env: &InferCx, i: u64) -> InfererV {
    match crate::solve::get_impl_spec(env, i) {
        Some(imp) => {
            if imp.file == st.file && imp.trait_def.is_some() {
                let st = check_impl_conformance_spec(st, env, i);
                st
            } else {
                st
            }
        },
        None => {
            st
        },
    }
}

/// [`Inferer::check_conformance`], as a mathematical function.
pub open spec fn check_conformance_spec(st: InfererV, env: &InferCx, i: u64, n: u64) -> InfererV
    decreases n - i,
{
    if i < n {
        let st = check_own_impl_spec(st, env, i);
        let st = check_conformance_spec(st, env, (i + 1) as u64, n);
        st
    } else {
        st
    }
}

// The types of members.

/// [`Inferer::rigid_self`], as a mathematical function.
pub open spec fn rigid_self_spec(st: InfererV, env: &InferCx, ty: &Ty, trait_def: DefId) -> Ty {
    crate::subst::rigid_self_in_spec(
        &crate::unify::resolve_spec(st, ty, DEPTH_LIMIT),
        trait_def,
        &crate::ty::nominals_spec(&crate::decls::declared_generics_spec(st, env, trait_def)),
    )
}

/// [`Inferer::stamp_types`], as a mathematical function.
pub open spec fn stamp_types_spec(st: InfererV, env: &InferCx, l: &List<NodeId>) -> InfererV
    decreases l,
{
    match l {
        List::Nil => {
            st
        },
        List::Cons(h, t) => {
            let (st, ty) = crate::types::ty_from_node_spec(st, env, *h, DEPTH_LIMIT);
            let st = crate::unify::set_ty_spec(st, st.file, *h, ty);
            let st = stamp_types_spec(st, env, t);
            st
        },
    }
}

/// [`Inferer::stamp_member`], as a mathematical function.
pub open spec fn stamp_member_spec(st: InfererV, env: &InferCx, i: u64) -> InfererV {
    let node = crate::ids::node_at_spec(i);
    match crate::def::kind_of_spec(env.tables, st.file, node) {
        Some(NodeKind::Field { name: _, ty }) => {
            let (st, t) = crate::types::ty_from_node_spec(st, env, *ty, DEPTH_LIMIT);
            let st = crate::unify::set_ty_spec(st, st.file, node, t);
            st
        },
        Some(NodeKind::Variant { name: _, payload, value: _ }) => match payload {
            VariantPayload::Tuple(types) => {
                let st = stamp_types_spec(st, env, types);
                st
            },
            _ => {
                st
            },
        },
        Some(NodeKind::DistinctType { inner }) => {
            let (st, t) = crate::types::ty_from_node_spec(st, env, *inner, DEPTH_LIMIT);
            let st = crate::unify::set_ty_spec(st, st.file, *inner, t);
            st
        },
        Some(NodeKind::AssocConst { ty, default: _ }) => {
            let (st, t) = crate::types::ty_from_node_spec(st, env, *ty, DEPTH_LIMIT);
            let st = crate::unify::set_ty_spec(st, st.file, node, t);
            st
        },
        _ => {
            st
        },
    }
}

/// [`Inferer::stamp_nodes`], as a mathematical function.
pub open spec fn stamp_nodes_spec(st: InfererV, env: &InferCx, i: u64, n: u64) -> InfererV
    decreases n - i,
{
    if i < n {
        let st = stamp_member_spec(st, env, i);
        let st = stamp_nodes_spec(st, env, (i + 1) as u64, n);
        st
    } else {
        st
    }
}

/// [`Inferer::is_own`], as a mathematical function.
pub open spec fn is_own_spec(st: InfererV, env: &InferCx, d: DefId, kind: DefKind) -> bool {
    crate::def::def_kind_spec(env.tables, d) == kind
        && crate::def::def_file_spec(env.tables, d) == Some(st.file)
}

/// [`Inferer::stamp_methods`], as a mathematical function.
pub open spec fn stamp_methods_spec(
    st: InfererV,
    env: &InferCx,
    l: &List<(Symbol, DefId)>,
    trait_def: DefId,
) -> InfererV
    decreases l,
{
    match l {
        List::Nil => {
            st
        },
        List::Cons(h, rest) => {
            let st = if crate::def::def_kind_spec(env.tables, h.1) == DefKind::Func {
                let (st, raw) = crate::types::func_def_ty_spec(st, env, h.1, DEPTH_LIMIT);
                let ty = rigid_self_spec(st, env, &raw, trait_def);
                match crate::def::def_place_spec(env.tables, h.1) {
                    Some((file, node)) => {
                        if file == st.file {
                            let st = crate::unify::set_signature_spec(
                                st,
                                file,
                                crate::def::bound_rhs_spec(env.tables, file, node),
                                crate::unify::resolve_spec(st, &ty, DEPTH_LIMIT),
                            );
                            st
                        } else {
                            st
                        }
                    },
                    None => {
                        st
                    },
                }
            } else {
                st
            };
            let st = stamp_methods_spec(st, env, rest, trait_def);
            st
        },
    }
}

/// [`Inferer::stamp_trait`], as a mathematical function.
pub open spec fn stamp_trait_spec(st: InfererV, env: &InferCx, i: u64) -> InfererV {
    let d = crate::ids::def_at_spec(i);
    if is_own_spec(st, env, d, DefKind::Trait) {
        let st = stamp_methods_spec(st, env, &members_of_spec(env.tables, d), d);
        st
    } else {
        st
    }
}

/// [`Inferer::stamp_traits`], as a mathematical function.
pub open spec fn stamp_traits_spec(st: InfererV, env: &InferCx, i: u64, n: u64) -> InfererV
    decreases n - i,
{
    if i < n {
        let st = stamp_trait_spec(st, env, i);
        let st = stamp_traits_spec(st, env, (i + 1) as u64, n);
        st
    } else {
        st
    }
}

/// [`Inferer::stamp_bodyless`], as a mathematical function.
pub open spec fn stamp_bodyless_spec(st: InfererV, env: &InferCx, i: u64) -> InfererV {
    let d = crate::ids::def_at_spec(i);
    if is_own_spec(st, env, d, DefKind::Func) && !crate::decls::has_body_spec(env.tables, d) {
        match crate::def::func_of_spec(env.tables, d) {
            Some((file, func)) => {
                if file == st.file && crate::unify::get_signature_spec(st, st.file, func).is_none() {
                    let (st, ty) = crate::types::func_def_ty_spec(st, env, d, DEPTH_LIMIT);
                    let st = crate::unify::set_signature_spec(
                        st,
                        st.file,
                        func,
                        crate::unify::resolve_spec(st, &ty, DEPTH_LIMIT),
                    );
                    st
                } else {
                    st
                }
            },
            None => {
                st
            },
        }
    } else {
        st
    }
}

/// [`Inferer::stamp_bodyless_funcs`], as a mathematical function.
pub open spec fn stamp_bodyless_funcs_spec(st: InfererV, env: &InferCx, i: u64, n: u64) -> InfererV
    decreases n - i,
{
    if i < n {
        let st = stamp_bodyless_spec(st, env, i);
        let st = stamp_bodyless_funcs_spec(st, env, (i + 1) as u64, n);
        st
    } else {
        st
    }
}

/// [`is_field_node`], as a mathematical function.
pub open spec fn is_field_node_spec(k: Option<&NodeKind>) -> bool {
    match k {
        Some(NodeKind::Field { .. }) => true,
        _ => false,
    }
}

/// Whether a node is a field's own.
pub fn is_field_node(k: Option<&NodeKind>) -> (r: bool)
    ensures
        r == is_field_node_spec(k),
{
    match k {
        Some(NodeKind::Field { .. }) => true,
        _ => false,
    }
}

/// [`Inferer::stamp_position`], as a mathematical function.
pub open spec fn stamp_position_spec(st: InfererV, env: &InferCx, i: u64) -> InfererV {
    let d = crate::ids::def_at_spec(i);
    if is_own_spec(st, env, d, DefKind::Field) {
        match crate::def::def_node_spec(env.tables, d) {
            Some(n) => {
                if !is_field_node_spec(crate::def::kind_of_spec(env.tables, st.file, n)) {
                    let (st, t) = crate::types::ty_from_node_spec(st, env, n, DEPTH_LIMIT);
                    let st = crate::unify::set_ty_spec(st, st.file, n, t);
                    st
                } else {
                    st
                }
            },
            None => {
                st
            },
        }
    } else {
        st
    }
}

/// [`Inferer::stamp_positions`], as a mathematical function.
pub open spec fn stamp_positions_spec(st: InfererV, env: &InferCx, i: u64, n: u64) -> InfererV
    decreases n - i,
{
    if i < n {
        let st = stamp_position_spec(st, env, i);
        let st = stamp_positions_spec(st, env, (i + 1) as u64, n);
        st
    } else {
        st
    }
}

/// [`Inferer::stamp_member_types`], as a mathematical function.
pub open spec fn stamp_member_types_spec(st: InfererV, env: &InferCx) -> InfererV {
    let st = stamp_nodes_spec(st, env, 0, crate::def::node_count_spec(env.tables, st.file));
    let st = stamp_traits_spec(st, env, 0, crate::def::def_count_spec(env.tables));
    let st = stamp_bodyless_funcs_spec(st, env, 0, crate::def::def_count_spec(env.tables));
    let st = stamp_positions_spec(st, env, 0, crate::def::def_count_spec(env.tables));
    st
}

// The tags of variants.

/// [`is_unit_payload`], as a mathematical function.
pub open spec fn is_unit_payload_spec(p: &VariantPayload) -> bool {
    match p {
        VariantPayload::Unit => true,
        _ => false,
    }
}

/// Whether a variant carries nothing.
pub fn is_unit_payload(p: &VariantPayload) -> (r: bool)
    ensures
        r == is_unit_payload_spec(p),
{
    match p {
        VariantPayload::Unit => true,
        _ => false,
    }
}

/// [`tag_holder`], as a mathematical function.
pub open spec fn tag_holder_spec(seen: &List<(i128, Symbol)>, tag: i128) -> Option<Symbol>
    decreases seen,
{
    match seen {
        List::Nil => None,
        List::Cons(h, t) => if h.0 == tag {
            Some(h.1)
        } else {
            tag_holder_spec(t, tag)
        },
    }
}

/// The name that took a tag first.
pub fn tag_holder(seen: &List<(i128, Symbol)>, tag: i128) -> (r: Option<Symbol>)
    ensures
        r == tag_holder_spec(seen, tag),
    decreases seen,
{
    match seen {
        List::Nil => None,
        List::Cons(h, t) => if h.0 == tag {
            Some(dup_sym(&h.1))
        } else {
            tag_holder(t, tag)
        },
    }
}

/// [`next_tag`], as a mathematical function.
pub open spec fn next_tag_spec(tag: i128) -> Option<i128> {
    if tag < 0x7fff_ffff_ffff_ffff_ffff_ffff_ffff_ffff {
        Some((tag + 1) as i128)
    } else {
        None
    }
}

/// The tag after one, where there is room for it.
pub fn next_tag(tag: i128) -> (r: Option<i128>)
    ensures
        r == next_tag_spec(tag),
{
    if tag < 0x7fff_ffff_ffff_ffff_ffff_ffff_ffff_ffff {
        Some((tag + 1) as i128)
    } else {
        None
    }
}

/// [`Inferer::variant_tag_value`], as a mathematical function.
pub open spec fn variant_tag_value_spec(
    st: InfererV,
    env: &InferCx,
    expr: NodeId,
) -> (InfererV, Option<i128>) {
    let (st, value) = crate::types::const_operand_spec(
        st,
        env,
        st.file,
        expr,
        "an enum discriminant",
        0,
        DEPTH_LIMIT,
    );
    match value {
        Some(ConstValue::Int(n)) => match crate::bigint::int_to_i128_spec(&n) {
            Some(n) => (st, Some(n)),
            None => {
                let st = crate::unify::report_const_in_spec(
                    st,
                    env,
                    st.file,
                    expr,
                    crate::list::list3_spec(
                        Part::Text("an enum discriminant must fit in 128 bits, and "),
                        Part::Int(n),
                        Part::Text(" does not"),
                    ),
                );
                (st, None)
            },
        },
        Some(other) => {
            let st = crate::unify::report_const_in_spec(
                st,
                env,
                st.file,
                expr,
                crate::list::list3_spec(
                    Part::Text("an enum discriminant must be an integer, not `"),
                    Part::Value(other),
                    Part::Text("`"),
                ),
            );
            (st, None)
        },
        None => (st, None),
    }
}

/// [`Inferer::variant_tag`], as a mathematical function.
pub open spec fn variant_tag_spec(
    st: InfererV,
    env: &InferCx,
    name: &Symbol,
    payload: &VariantPayload,
    value: Option<NodeId>,
    next: i128,
) -> (InfererV, i128) {
    match value {
        Some(expr) => if is_unit_payload_spec(payload) {
            let (st, written) = variant_tag_value_spec(st, env, expr);
            match written {
                Some(n) => (st, n),
                None => (st, next),
            }
        } else {
            let st = crate::unify::report_in_spec(
                st,
                env,
                st.file,
                expr,
                crate::diag::say_name_spec(
                    "`",
                    name,
                    "` carries a payload, so it may not be given an explicit discriminant",
                ),
            );
            (st, next)
        },
        None => (st, next),
    }
}

/// The tag recorded for a variant of the file being inferred.
pub open spec fn tag_of(st: InfererV, v: NodeId) -> Option<i128> {
    match crate::unify::get_variant_tag_spec(st, st.file, v) {
        Some(x) => Some(x.0),
        None => None,
    }
}

/// Whether a node is a variant.
pub open spec fn is_variant(t: &Tables, file: FileId, v: NodeId) -> bool {
    match crate::def::kind_of_spec(t, file, v) {
        Some(NodeKind::Variant { .. }) => true,
        _ => false,
    }
}

/// Whether a node is a variant without a written tag.
pub open spec fn is_plain(t: &Tables, file: FileId, v: NodeId) -> bool {
    match crate::def::kind_of_spec(t, file, v) {
        Some(NodeKind::Variant { name: _, payload: _, value }) => value is None,
        _ => false,
    }
}

/// Whether no two variants of a list have the same tag.
pub open spec fn tags_apart(t: &Tables, st: InfererV, l: Seq<NodeId>) -> bool {
    forall|i: int, j: int|
        0 <= i < j < l.len()
            && is_variant(t, st.file, l[i])
            && is_variant(t, st.file, l[j]) ==> #[trigger] tag_of(
            st,
            l[i],
        ) != #[trigger] tag_of(st, l[j])
}

/// Whether every variant of a list has a tag, and none that was taken before.
pub open spec fn tags_unseen(t: &Tables, st: InfererV, l: Seq<NodeId>, seen: List<(i128, Symbol)>) -> bool {
    forall|i: int|
        0 <= i < l.len() && is_variant(t, st.file, l[i]) ==> match #[trigger] tag_of(st, l[i]) {
            Some(tag) => tag_holder_spec(&seen, tag) is None,
            None => false,
        }
}

/// Whether the variants of a list have no written tags.
pub open spec fn all_plain(t: &Tables, file: FileId, l: Seq<NodeId>) -> bool {
    forall|i: int| 0 <= i < l.len() ==> #[trigger] is_plain(t, file, l[i])
}

/// Whether the variants of a list are numbered one after the other.
pub open spec fn numbered_from(st: InfererV, l: Seq<NodeId>, next: i128) -> bool {
    forall|i: int| 0 <= i < l.len() ==> #[trigger] tag_of(st, l[i]) == Some((next + i) as i128)
}

proof fn holder_in_front(seen: List<(i128, Symbol)>, tag: i128, name: Symbol, other: i128)
    ensures
        tag_holder_spec(
            &crate::list::append_spec(seen, crate::list::single_spec((tag, name))),
            other,
        ) is None <==> tag_holder_spec(&seen, other) is None && other != tag,
    decreases seen,
{
    reveal_with_fuel(tag_holder_spec, 2);
    match seen {
        List::Nil => {},
        List::Cons(_, t) => holder_in_front(*t, tag, name, other),
    }
}

proof fn one_more_variant(
    t: &Tables,
    before: InfererV,
    mid: InfererV,
    after: InfererV,
    v: NodeId,
    rest: List<NodeId>,
    tag: i128,
    name: Symbol,
    next: i128,
    seen: List<(i128, Symbol)>,
)
    requires
        is_variant(t, before.file, v),
        before.file == mid.file,
        before.file == after.file,
        tag_of(mid, v) == Some(tag),
        forall|w: NodeId| w != v ==> #[trigger] tag_of(mid, w) == tag_of(before, w),
        forall|w: NodeId| !rest@.contains(w) ==> #[trigger] tag_of(after, w) == tag_of(mid, w),
        before.diags.len() <= mid.diags.len() <= after.diags.len(),
        mid.diags.len() == before.diags.len() ==> tag_holder_spec(&seen, tag) is None,
        rest@.no_duplicates() && after.diags.len() == mid.diags.len() ==> {
            &&& tags_apart(t, after, rest@)
            &&& tags_unseen(
                t,
                after,
                rest@,
                crate::list::append_spec(seen, crate::list::single_spec((tag, name))),
            )
        },
        is_plain(t, before.file, v) ==> tag == next,
        rest@.no_duplicates()
            && all_plain(t, before.file, rest@)
            && tag < i128::MAX
            && tag + 1 + rest@.len() <= i128::MAX
            ==> numbered_from(after, rest@, (tag + 1) as i128),
    ensures
        ({
            let l = List::Cons(v, Box::new(rest));
            &&& forall|w: NodeId| !l@.contains(w) ==> #[trigger] tag_of(after, w) == tag_of(before, w)
            &&& l@.no_duplicates() && after.diags.len() == before.diags.len() ==> tags_apart(t, after, l@)
                && tags_unseen(t, after, l@, seen)
            &&& l@.no_duplicates()
                && all_plain(t, before.file, l@)
                && next + l@.len() <= i128::MAX ==> numbered_from(
                after,
                l@,
                next,
            )
        }),
{
    let l = List::Cons(v, Box::new(rest));
    let s = l@;
    assert(s =~= seq![v] + rest@);
    assert forall|w: NodeId| !s.contains(w) implies #[trigger] tag_of(after, w) == tag_of(before, w) by {
        assert(s[0] == v);
        if rest@.contains(w) {
            let i = choose|i: int| 0 <= i < rest@.len() && rest@[i] == w;
            assert(s[i + 1] == w);
        }
    }
    if s.no_duplicates() {
        assert(!rest@.contains(v)) by {
            if rest@.contains(v) {
                let i = choose|i: int| 0 <= i < rest@.len() && rest@[i] == v;
                assert(s[i + 1] == s[0]);
            }
        }
        assert(rest@.no_duplicates()) by {
            assert forall|i: int, j: int| 0 <= i < rest@.len()
                && 0 <= j < rest@.len()
                && i != j implies rest@[i]
                != rest@[j] by {
                assert(s[i + 1] != s[j + 1]);
            }
        }
        assert(tag_of(after, v) == Some(tag));
        if after.diags.len() == before.diags.len() {
            assert forall|i: int| 0 <= i < rest@.len() && is_variant(t, after.file, rest@[i]) implies tag_of(
                after,
                rest@[i],
            ) is Some && tag_of(after, rest@[i]) != Some(tag) && tag_holder_spec(
                &seen,
                tag_of(after, rest@[i])->0,
            ) is None by {
                holder_in_front(seen, tag, name, tag_of(after, rest@[i])->0);
            }
            assert forall|i: int, j: int|
                0 <= i < j < s.len() && is_variant(t, after.file, s[i]) && is_variant(
                    t,
                    after.file,
                    s[j],
                ) implies #[trigger] tag_of(after, s[i]) != #[trigger] tag_of(after, s[j]) by {
                assert(s[j] == rest@[j - 1]);
                if i > 0 {
                    assert(s[i] == rest@[i - 1]);
                }
            }
            assert forall|i: int| 0 <= i < s.len()
                && is_variant(t, after.file, s[i]) implies match #[trigger] tag_of(
                after,
                s[i],
            ) {
                Some(x) => tag_holder_spec(&seen, x) is None,
                None => false,
            } by {
                if i > 0 {
                    assert(s[i] == rest@[i - 1]);
                }
            }
        }
        if all_plain(t, before.file, s) && next + s.len() <= i128::MAX {
            assert(is_plain(t, before.file, s[0]));
            assert forall|i: int| 0 <= i < rest@.len() implies #[trigger] is_plain(t, before.file, rest@[i]) by {
                assert(is_plain(t, before.file, s[i + 1]));
            }
            assert(all_plain(t, before.file, rest@));
            assert(rest@.len() > 0 ==> tag < i128::MAX);
            assert forall|i: int| 0 <= i < s.len() implies #[trigger] tag_of(after, s[i]) == Some((next + i) as i128) by {
                if i > 0 {
                    assert(s[i] == rest@[i - 1]);
                    assert(tag_of(after, rest@[i - 1]) == Some((tag + 1 + (i - 1)) as i128));
                }
            }
        }
    }
}

proof fn no_more_variant(
    t: &Tables,
    before: InfererV,
    after: InfererV,
    v: NodeId,
    rest: List<NodeId>,
    seen: List<(i128, Symbol)>,
)
    requires
        !is_variant(t, before.file, v),
        before.file == after.file,
        forall|w: NodeId| !rest@.contains(w) ==> #[trigger] tag_of(after, w) == tag_of(before, w),
        rest@.no_duplicates() && after.diags.len() == before.diags.len() ==> tags_apart(t, after, rest@)
            && tags_unseen(t, after, rest@, seen),
    ensures
        ({
            let l = List::Cons(v, Box::new(rest));
            &&& forall|w: NodeId| !l@.contains(w) ==> #[trigger] tag_of(after, w) == tag_of(before, w)
            &&& l@.no_duplicates() && after.diags.len() == before.diags.len() ==> tags_apart(t, after, l@)
                && tags_unseen(t, after, l@, seen)
            &&& !all_plain(t, before.file, l@)
        }),
{
    let l = List::Cons(v, Box::new(rest));
    let s = l@;
    assert(s =~= seq![v] + rest@);
    assert(!is_plain(t, before.file, s[0]));
    assert forall|w: NodeId| !s.contains(w) implies #[trigger] tag_of(after, w) == tag_of(before, w) by {
        if rest@.contains(w) {
            let i = choose|i: int| 0 <= i < rest@.len() && rest@[i] == w;
            assert(s[i + 1] == w);
        }
    }
    if s.no_duplicates() && after.diags.len() == before.diags.len() {
        assert(rest@.no_duplicates()) by {
            assert forall|i: int, j: int| 0 <= i < rest@.len()
                && 0 <= j < rest@.len()
                && i != j implies rest@[i]
                != rest@[j] by {
                assert(s[i + 1] != s[j + 1]);
            }
        }
        assert forall|i: int, j: int|
            0 <= i < j < s.len()
                && is_variant(t, after.file, s[i])
                && is_variant(t, after.file, s[j]) implies #[trigger] tag_of(
            after,
            s[i],
        ) != #[trigger] tag_of(after, s[j]) by {
            assert(s[j] == rest@[j - 1]);
            assert(s[i] == rest@[i - 1]);
        }
        assert forall|i: int| 0 <= i < s.len()
            && is_variant(t, after.file, s[i]) implies match #[trigger] tag_of(
            after,
            s[i],
        ) {
            Some(x) => tag_holder_spec(&seen, x) is None,
            None => false,
        } by {
            assert(s[i] == rest@[i - 1]);
        }
    }
}

/// [`Inferer::stamp_variants`], as a mathematical function.
pub open spec fn stamp_variants_spec(
    st: InfererV,
    env: &InferCx,
    l: &List<NodeId>,
    next: i128,
    seen: List<(i128, Symbol)>,
) -> InfererV
    decreases l,
{
    match l {
        List::Nil => {
            st
        },
        List::Cons(v, rest) => match crate::def::kind_of_spec(env.tables, st.file, *v) {
            Some(NodeKind::Variant { name, payload, value }) => {
                let (st, tag) = variant_tag_spec(st, env, name, payload, *value, next);
                let st = match tag_holder_spec(&seen, tag) {
                    Some(other) => {
                        let st = crate::unify::report_in_spec(
                            st,
                            env,
                            st.file,
                            *v,
                            crate::list::list5_spec(
                                Part::Text("the discriminant "),
                                Part::Tag(tag),
                                Part::Text(" is already `"),
                                Part::Name(other),
                                Part::Text("`'s"),
                            ),
                        );
                        st
                    },
                    None => {
                        st
                    },
                };
                let st = crate::unify::set_variant_tag_spec(st, st.file, *v, VariantTag(tag));
                let (st, after) = match next_tag_spec(tag) {
                    Some(n) => (st, n),
                    None => {
                        let st = crate::unify::report_in_spec(
                            st,
                            env,
                            st.file,
                            *v,
                            crate::diag::say_spec(
                                "the discriminant after this one would not fit in 128 bits",
                            ),
                        );
                        (st, tag)
                    },
                };
                let st = stamp_variants_spec(
                    st,
                    env,
                    rest,
                    after,
                    crate::list::append_spec(seen, crate::list::single_spec((tag, (*name)))),
                );
                st
            },
            _ => {
                let st = stamp_variants_spec(st, env, rest, next, seen);
                st
            },
        },
    }
}

/// [`Inferer::stamp_enum`], as a mathematical function.
pub open spec fn stamp_enum_spec(st: InfererV, env: &InferCx, i: u64) -> InfererV {
    match crate::def::kind_of_spec(env.tables, st.file, crate::ids::node_at_spec(i)) {
        Some(NodeKind::EnumType { variants, generics: _ }) => {
            let st = stamp_variants_spec(st, env, variants, 0, List::Nil);
            st
        },
        _ => {
            st
        },
    }
}

/// [`Inferer::stamp_variant_tags`], as a mathematical function.
pub open spec fn stamp_variant_tags_spec(st: InfererV, env: &InferCx, i: u64, n: u64) -> InfererV
    decreases n - i,
{
    if i < n {
        let st = stamp_enum_spec(st, env, i);
        let st = stamp_variant_tags_spec(st, env, (i + 1) as u64, n);
        st
    } else {
        st
    }
}

// The generics of associated constants.

/// [`Inferer::stamp_consts`], as a mathematical function.
pub open spec fn stamp_consts_spec(
    st: InfererV,
    env: &InferCx,
    l: &List<(Symbol, DefId)>,
    generics: &List<DefId>,
) -> InfererV
    decreases l,
{
    match l {
        List::Nil => {
            st
        },
        List::Cons(h, rest) => {
            let m = crate::def::resolve_alias_spec(env.tables, h.1);
            let st = match (
                crate::def::def_kind_spec(env.tables, m),
                crate::def::def_node_spec(env.tables, m),
            ) {
                (DefKind::Const, Some(node)) => {
                    let st = crate::unify::set_generics_spec(
                        st,
                        st.file,
                        node,
                        Generics { params: (*generics), own: crate::list::list_len_spec(generics) },
                    );
                    st
                },
                _ => {
                    st
                },
            };
            let st = stamp_consts_spec(st, env, rest, generics);
            st
        },
    }
}

/// [`Inferer::stamp_impl_consts`], as a mathematical function.
pub open spec fn stamp_impl_consts_spec(st: InfererV, env: &InferCx, i: u64) -> InfererV {
    match crate::solve::get_impl_spec(env, i) {
        Some(imp) => {
            if imp.file == st.file && !crate::list::is_empty_spec(&imp.generics) {
                let st = stamp_consts_spec(st, env, &imp.members, &imp.generics);
                st
            } else {
                st
            }
        },
        None => {
            st
        },
    }
}

/// [`Inferer::stamp_assoc_const_generics`], as a mathematical function.
pub open spec fn stamp_assoc_const_generics_spec(st: InfererV, env: &InferCx, i: u64, n: u64) -> InfererV
    decreases n - i,
{
    if i < n {
        let st = stamp_impl_consts_spec(st, env, i);
        let st = stamp_assoc_const_generics_spec(st, env, (i + 1) as u64, n);
        st
    } else {
        st
    }
}

// Aliases.

/// [`Inferer::stamp_expansion`], as a mathematical function.
pub open spec fn stamp_expansion_spec(st: InfererV, env: &InferCx, def: DefId, ty: &Ty) -> InfererV {
    match crate::def::def_node_spec(env.tables, def) {
        Some(node) => {
            let st = crate::unify::set_expansion_spec(
                st,
                st.file,
                node,
                crate::unify::resolve_spec(st, ty, DEPTH_LIMIT),
            );
            st
        },
        None => {
            st
        },
    }
}

/// [`Inferer::check_const_alias`], as a mathematical function.
pub open spec fn check_const_alias_spec(st: InfererV, env: &InferCx, i: u64) -> InfererV {
    let d = crate::ids::def_at_spec(i);
    if is_own_spec(st, env, d, DefKind::Const) {
        let (st, ty) = crate::types::const_alias_ty_spec(st, env, d, DEPTH_LIMIT);
        match ty {
            Some(ty) => {
                let st = stamp_expansion_spec(st, env, d, &ty);
                st
            },
            None => {
                st
            },
        }
    } else {
        st
    }
}

/// [`Inferer::check_const_aliases`], as a mathematical function.
pub open spec fn check_const_aliases_spec(st: InfererV, env: &InferCx, i: u64, n: u64) -> InfererV
    decreases n - i,
{
    if i < n {
        let st = check_const_alias_spec(st, env, i);
        let st = check_const_aliases_spec(st, env, (i + 1) as u64, n);
        st
    } else {
        st
    }
}

/// [`Inferer::check_alias`], as a mathematical function.
pub open spec fn check_alias_spec(st: InfererV, env: &InferCx, i: u64) -> InfererV {
    let d = crate::ids::def_at_spec(i);
    if is_own_spec(st, env, d, DefKind::TypeAlias) {
        let (st, ty) = crate::types::expand_alias_spec(st, env, d, DEPTH_LIMIT);
        let st = stamp_expansion_spec(st, env, d, &ty);
        st
    } else {
        st
    }
}

/// [`Inferer::check_aliases`], as a mathematical function.
pub open spec fn check_aliases_spec(st: InfererV, env: &InferCx, i: u64, n: u64) -> InfererV
    decreases n - i,
{
    if i < n {
        let st = check_alias_spec(st, env, i);
        let st = check_aliases_spec(st, env, (i + 1) as u64, n);
        st
    } else {
        st
    }
}

/// [`Inferer::check_type_aliases`], as a mathematical function.
pub open spec fn check_type_aliases_spec(st: InfererV, env: &InferCx) -> InfererV {
    let st = check_const_aliases_spec(st, env, 0, crate::def::def_count_spec(env.tables));
    let st = check_aliases_spec(st, env, 0, crate::def::def_count_spec(env.tables));
    st
}

impl Inferer {
    /// Bind a trait's parameters to what an impl wrote for them, and the rest to
    /// variables its members decide.
    pub fn bind_trait_generics(
        &mut self,
        env: &InferCx,
        generics: &List<DefId>,
        imp: &ImplInfo,
        i: u64,
        map: Subst,
    ) -> (r: Subst)
        ensures
            (final(self)@, r) == bind_trait_generics_spec(old(self)@, env, generics, imp, i, map),
            crate::keeping::kept(old(self)@, final(self)@),
        decreases generics,
    {
        match generics {
            List::Nil => map,
            List::Cons(g, rest) => {
                let args = self.impl_trait_args(env, imp, DEPTH_LIMIT);
                let t = match nth(&args, i) {
                    Some(t) => subst_ty(t, &map),
                    None => self.fresh(),
                };
                self.bind_trait_generics(env, rest, imp, succ(i), bind_ty(map, *g, t))
            },
        }
    }

    /// Bind a trait's associated types to what an impl bound them to.
    pub fn bind_trait_assocs(
        &mut self,
        env: &InferCx,
        assocs: &List<(Symbol, DefId)>,
        imp: &ImplInfo,
        map: Subst,
    ) -> (r: Subst)
        ensures
            (final(self)@, r) == bind_trait_assocs_spec(old(self)@, env, assocs, imp, map),
            crate::keeping::kept(old(self)@, final(self)@),
        decreases assocs,
    {
        match assocs {
            List::Nil => map,
            List::Cons(h, rest) => {
                let bound = self.impl_assoc(env, imp, &h.0, DEPTH_LIMIT);
                let t = match bound {
                    Some(t) => subst_ty(&t, &map),
                    None => self.fresh(),
                };
                self.bind_trait_assocs(env, rest, imp, bind_ty(map, h.1, t))
            },
        }
    }

    /// The type a member was declared with, where it was declared with one.
    pub fn member_sig(&mut self, env: &InferCx, m: DefId) -> (r: Option<Ty>)
        ensures
            (final(self)@, r) == member_sig_spec(old(self)@, env, m),
            crate::keeping::kept(old(self)@, final(self)@),
    {
        match def_kind(env.tables, m) {
            DefKind::Func => {
                let t = self.func_def_ty(env, m, DEPTH_LIMIT);
                Some(t)
            },
            DefKind::Const => self.declared_member_ty(env, m, DEPTH_LIMIT),
            _ => None,
        }
    }

    /// Whether two types agree, asked without binding anything.
    pub fn agree(&mut self, a: &Ty, b: &Ty) -> (r: bool)
        ensures
            (final(self)@, r) == agree_spec(old(self)@, a, b),
            crate::laws::types::same_or_deeper(old(self)@, final(self)@),
            crate::laws::agreement::plain_pair(*a, *b) ==> r == crate::laws::agreement::fits(*a, *b),
            crate::keeping::kept(old(self)@, final(self)@),
    {
        proof {
            reveal(crate::keeping::kept);
        }
        proof {
            if crate::laws::agreement::plain_pair(*a, *b) { crate::laws::agreement::settled_types_agree_when_one_fits(self@, *a, *b, DEPTH_LIMIT); }
        }
        let snapshot = self.snapshot();
        let clash = self.unify(a, b, DEPTH_LIMIT);
        self.rollback(snapshot);
        clash.is_none()
    }

    /// Hold one member an impl supplies to what its trait declared.
    pub fn check_member(
        &mut self,
        env: &InferCx,
        imp: &ImplInfo,
        trait_def: DefId,
        name: &Symbol,
        required: DefId,
        supplied: DefId,
        map: &Subst,
    )
        ensures
            final(self)@ == check_member_spec(old(self)@, env, imp, trait_def, name, required, supplied, map),
            crate::keeping::kept(old(self)@, final(self)@),
    {
        let want = self.member_sig(env, required);
        match want {
            Some(want) => {
                let got = self.member_sig(env, supplied);
                match got {
                    Some(got) => {
                        let aligned = if def_kind(env.tables, required) == DefKind::Func {
                            align_generics(
                                env.tables,
                                &self.declared_generics(env, required),
                                &self.declared_generics(env, supplied),
                                dup_subst(map),
                            )
                        } else {
                            dup_subst(map)
                        };
                        let want = subst_ty(&want, &aligned);
                        let got = subst_ty(&got, &aligned);
                        let same = self.agree(&want, &got);
                        if !same {
                            let place = match def_node(env.tables, supplied) {
                                Some(n) => Some(n),
                                None => target_node(imp),
                            };
                            match place {
                                Some(at) => {
                                    let msg = append(
                                        list5(
                                            Part::Text("`"),
                                            Part::Name(dup_sym(name)),
                                            Part::Text("` does not match the declaration in `"),
                                            Part::Path(trait_def),
                                            Part::Text("`: expected `"),
                                        ),
                                        list4(
                                            Part::Signature(self.resolve(&want, DEPTH_LIMIT)),
                                            Part::Text("`, found `"),
                                            Part::Signature(self.resolve(&got, DEPTH_LIMIT)),
                                            Part::Text("`"),
                                        ),
                                    );
                                    self.report_in(env, imp.file, at, msg);
                                },
                                None => {},
                            }
                        }
                    },
                    _ => {},
                }
            },
            _ => {},
        }
    }

    /// Hold each member of a trait that an impl supplies to its declaration.
    pub fn check_members(
        &mut self,
        env: &InferCx,
        l: &List<(Symbol, DefId)>,
        imp: &ImplInfo,
        trait_def: DefId,
        map: &Subst,
    )
        ensures
            final(self)@ == check_members_spec(old(self)@, env, l, imp, trait_def, map),
            crate::keeping::kept(old(self)@, final(self)@),
        decreases l,
    {
        match l {
            List::Nil => {},
            List::Cons(h, rest) => {
                match find_member(&imp.members, &h.0) {
                    Some(supplied) => {
                        self.check_member(env, imp, trait_def, &h.0, h.1, supplied, map);
                    },
                    None => {},
                }
                self.check_members(env, rest, imp, trait_def, map);
            },
        }
    }

    /// Check that every member an impl supplies has the type its trait declared, with
    /// `Self`, the trait's parameters and its associated types replaced by the
    /// impl's.
    pub fn check_impl_conformance(&mut self, env: &InferCx, i: u64)
        ensures
            final(self)@ == check_impl_conformance_spec(old(self)@, env, i),
            crate::keeping::kept(old(self)@, final(self)@),
    {
        match get_impl(env, i) {
            Some(imp) => match imp.trait_def {
                Some(t) => {
                    let trait_def = resolve_alias(env.tables, t);
                    let map = self.fresh_impl_map(env, &imp.generics, no_subst());
                    let self_ty = self.impl_self_ty(env, imp, &map, DEPTH_LIMIT);
                    let map = bind_ty(map, trait_def, self_ty);
                    let generics = self.declared_generics(env, trait_def);
                    let map = self.bind_trait_generics(env, &generics, imp, 0, map);
                    let map = self.bind_trait_assocs(env, &assocs_of(env.tables, trait_def), imp, map);
                    self.check_members(env, &members_of(env.tables, trait_def), imp, trait_def, &map);
                },
                None => {},
            },
            None => {},
        }
    }

    /// Check an impl of a trait that the file being inferred wrote.
    pub fn check_own_impl(&mut self, env: &InferCx, i: u64)
        ensures
            final(self)@ == check_own_impl_spec(old(self)@, env, i),
            crate::keeping::kept(old(self)@, final(self)@),
    {
        match get_impl(env, i) {
            Some(imp) => {
                if imp.file == self.file && imp.trait_def.is_some() {
                    self.check_impl_conformance(env, i);
                }
            },
            None => {},
        }
    }

    /// Check every impl of a trait that the file being inferred wrote.
    pub fn check_conformance(&mut self, env: &InferCx, i: u64, n: u64)
        ensures
            final(self)@ == check_conformance_spec(old(self)@, env, i, n),
            crate::keeping::kept(old(self)@, final(self)@),
    {
        let ghost start = self@;
        let mut at: u64 = i;
        while at < n
            invariant
                check_conformance_spec(start, env, i, n) == check_conformance_spec(self@, env, at, n),
                crate::keeping::kept(start, self@),
            decreases n - at,
        {
            self.check_own_impl(env, at);
            at = at + 1;
        }
    }

    /// Put a trait's own parameters back where `Self` left variables.
    pub fn rigid_self(&self, env: &InferCx, ty: &Ty, trait_def: DefId) -> (r: Ty)
        ensures
            r == rigid_self_spec(self@, env, ty, trait_def),
    {
        rigid_self_in(
            &self.resolve(ty, DEPTH_LIMIT),
            trait_def,
            &nominals(&self.declared_generics(env, trait_def)),
        )
    }

    /// Record the declared type of each node of a list.
    pub fn stamp_types(&mut self, env: &InferCx, l: &List<NodeId>)
        ensures
            final(self)@ == stamp_types_spec(old(self)@, env, l),
            crate::keeping::kept_but_types(old(self)@, final(self)@),
        decreases l,
    {
        proof {
            reveal(crate::keeping::kept);
        }
        match l {
            List::Nil => {},
            List::Cons(h, t) => {
                let ty = self.ty_from_node(env, *h, DEPTH_LIMIT);
                self.set_ty(self.file, *h, ty);
                self.stamp_types(env, t);
            },
        }
    }

    /// Record the declared type of a member on its own node.
    pub fn stamp_member(&mut self, env: &InferCx, i: u64)
        ensures
            final(self)@ == stamp_member_spec(old(self)@, env, i),
            crate::keeping::kept_but_types(old(self)@, final(self)@),
    {
        proof {
            reveal(crate::keeping::kept);
        }
        let node = node_at(i);
        match kind_of(env.tables, self.file, node) {
            Some(NodeKind::Field { name: _, ty }) => {
                let t = self.ty_from_node(env, *ty, DEPTH_LIMIT);
                self.set_ty(self.file, node, t);
            },
            Some(NodeKind::Variant { name: _, payload, value: _ }) => match payload {
                VariantPayload::Tuple(types) => {
                    self.stamp_types(env, types);
                },
                _ => {},
            },
            Some(NodeKind::DistinctType { inner }) => {
                let t = self.ty_from_node(env, *inner, DEPTH_LIMIT);
                self.set_ty(self.file, *inner, t);
            },
            Some(NodeKind::AssocConst { ty, default: _ }) => {
                let t = self.ty_from_node(env, *ty, DEPTH_LIMIT);
                self.set_ty(self.file, node, t);
            },
            _ => {},
        }
    }

    /// Record the declared types of the members from a node on.
    pub fn stamp_nodes(&mut self, env: &InferCx, i: u64, n: u64)
        ensures
            final(self)@ == stamp_nodes_spec(old(self)@, env, i, n),
            crate::keeping::kept_but_types(old(self)@, final(self)@),
    {
        proof {
            reveal(crate::keeping::kept);
        }
        let ghost start = self@;
        let mut at: u64 = i;
        while at < n
            invariant
                stamp_nodes_spec(start, env, i, n) == stamp_nodes_spec(self@, env, at, n),
                crate::keeping::kept_but_types(start, self@),
            decreases n - at,
        {
            proof {
                reveal(crate::keeping::kept);
            }
            self.stamp_member(env, at);
            at = at + 1;
        }
    }

    /// Whether a definition of the file being inferred is of a kind.
    pub fn is_own(&self, env: &InferCx, d: DefId, kind: DefKind) -> (r: bool)
        ensures
            r == is_own_spec(self@, env, d, kind),
    {
        def_kind(env.tables, d) == kind && def_file(env.tables, d) == Some(self.file)
    }

    /// Record the signature of each method of a trait.
    pub fn stamp_methods(&mut self, env: &InferCx, l: &List<(Symbol, DefId)>, trait_def: DefId)
        ensures
            final(self)@ == stamp_methods_spec(old(self)@, env, l, trait_def),
            crate::keeping::kept(old(self)@, final(self)@),
        decreases l,
    {
        match l {
            List::Nil => {},
            List::Cons(h, rest) => {
                if def_kind(env.tables, h.1) == DefKind::Func {
                    let raw = self.func_def_ty(env, h.1, DEPTH_LIMIT);
                    let ty = self.rigid_self(env, &raw, trait_def);
                    match def_place(env.tables, h.1) {
                        Some((file, node)) => {
                            if file == self.file {
                                self.set_signature(
                                    file,
                                    bound_rhs(env.tables, file, node),
                                    self.resolve(&ty, DEPTH_LIMIT),
                                );
                            }
                        },
                        None => {},
                    }
                }
                self.stamp_methods(env, rest, trait_def);
            },
        }
    }

    /// Record the signatures of a trait's methods: a trait's method may have no body
    /// that would be inferred.
    pub fn stamp_trait(&mut self, env: &InferCx, i: u64)
        ensures
            final(self)@ == stamp_trait_spec(old(self)@, env, i),
            crate::keeping::kept(old(self)@, final(self)@),
    {
        let d = def_at(i);
        if self.is_own(env, d, DefKind::Trait) {
            self.stamp_methods(env, &members_of(env.tables, d), d);
        }
    }

    /// Record the signatures of the traits from a definition on.
    pub fn stamp_traits(&mut self, env: &InferCx, i: u64, n: u64)
        ensures
            final(self)@ == stamp_traits_spec(old(self)@, env, i, n),
            crate::keeping::kept(old(self)@, final(self)@),
    {
        let ghost start = self@;
        let mut at: u64 = i;
        while at < n
            invariant
                stamp_traits_spec(start, env, i, n) == stamp_traits_spec(self@, env, at, n),
                crate::keeping::kept(start, self@),
            decreases n - at,
        {
            self.stamp_trait(env, at);
            at = at + 1;
        }
    }

    /// Record the signature of a function without a body.
    pub fn stamp_bodyless(&mut self, env: &InferCx, i: u64)
        ensures
            final(self)@ == stamp_bodyless_spec(old(self)@, env, i),
            crate::keeping::kept(old(self)@, final(self)@),
    {
        let d = def_at(i);
        if self.is_own(env, d, DefKind::Func) && !has_body(env.tables, d) {
            match func_of(env.tables, d) {
                Some((file, func)) => {
                    if file == self.file && self.get_signature(self.file, func).is_none() {
                        let ty = self.func_def_ty(env, d, DEPTH_LIMIT);
                        self.set_signature(self.file, func, self.resolve(&ty, DEPTH_LIMIT));
                    }
                },
                None => {},
            }
        }
    }

    /// Record the signatures of the functions without a body from a definition on.
    pub fn stamp_bodyless_funcs(&mut self, env: &InferCx, i: u64, n: u64)
        ensures
            final(self)@ == stamp_bodyless_funcs_spec(old(self)@, env, i, n),
            crate::keeping::kept(old(self)@, final(self)@),
    {
        let ghost start = self@;
        let mut at: u64 = i;
        while at < n
            invariant
                stamp_bodyless_funcs_spec(start, env, i, n) == stamp_bodyless_funcs_spec(self@, env, at, n),
                crate::keeping::kept(start, self@),
            decreases n - at,
        {
            self.stamp_bodyless(env, at);
            at = at + 1;
        }
    }

    /// Record the type of a position of a tuple struct, whose node is the type
    /// itself.
    pub fn stamp_position(&mut self, env: &InferCx, i: u64)
        ensures
            final(self)@ == stamp_position_spec(old(self)@, env, i),
            crate::keeping::kept_but_types(old(self)@, final(self)@),
    {
        proof {
            reveal(crate::keeping::kept);
        }
        let d = def_at(i);
        if self.is_own(env, d, DefKind::Field) {
            match def_node(env.tables, d) {
                Some(n) => {
                    if !is_field_node(kind_of(env.tables, self.file, n)) {
                        let t = self.ty_from_node(env, n, DEPTH_LIMIT);
                        self.set_ty(self.file, n, t);
                    }
                },
                None => {},
            }
        }
    }

    /// Record the types of tuple structs' positions from a definition on.
    pub fn stamp_positions(&mut self, env: &InferCx, i: u64, n: u64)
        ensures
            final(self)@ == stamp_positions_spec(old(self)@, env, i, n),
            crate::keeping::kept_but_types(old(self)@, final(self)@),
    {
        proof {
            reveal(crate::keeping::kept);
        }
        let ghost start = self@;
        let mut at: u64 = i;
        while at < n
            invariant
                stamp_positions_spec(start, env, i, n) == stamp_positions_spec(self@, env, at, n),
                crate::keeping::kept_but_types(start, self@),
            decreases n - at,
        {
            proof {
                reveal(crate::keeping::kept);
            }
            self.stamp_position(env, at);
            at = at + 1;
        }
    }

    /// Record the declared type of every member of the file being inferred, in the
    /// terms of its own definition.
    pub fn stamp_member_types(&mut self, env: &InferCx)
        ensures
            final(self)@ == stamp_member_types_spec(old(self)@, env),
            crate::keeping::kept_but_types(old(self)@, final(self)@),
    {
        proof {
            reveal(crate::keeping::kept);
        }
        self.stamp_nodes(env, 0, node_count(env.tables, self.file));
        self.stamp_traits(env, 0, def_count(env.tables));
        self.stamp_bodyless_funcs(env, 0, def_count(env.tables));
        self.stamp_positions(env, 0, def_count(env.tables));
    }

    /// A written discriminant, folded to the integer it is. `None` once a complaint
    /// was made.
    pub fn variant_tag_value(&mut self, env: &InferCx, expr: NodeId) -> (r: Option<i128>)
        ensures
            (final(self)@, r) == variant_tag_value_spec(old(self)@, env, expr),
            r is None ==> crate::types::spoken(old(self)@, final(self)@),
            crate::keeping::kept(old(self)@, final(self)@),
    {
        proof {
            reveal(crate::keeping::kept);
        }
        let value = self.const_operand(env, self.file, expr, "an enum discriminant", 0, DEPTH_LIMIT);
        match value {
            Some(ConstValue::Int(n)) => match int_to_i128(&n) {
                Some(n) => Some(n),
                None => {
                    self.report_const_in(
                        env,
                        self.file,
                        expr,
                        list3(
                            Part::Text("an enum discriminant must fit in 128 bits, and "),
                            Part::Int(n),
                            Part::Text(" does not"),
                        ),
                    );
                    None
                },
            },
            Some(other) => {
                self.report_const_in(
                    env,
                    self.file,
                    expr,
                    list3(
                        Part::Text("an enum discriminant must be an integer, not `"),
                        Part::Value(other),
                        Part::Text("`"),
                    ),
                );
                None
            },
            None => None,
        }
    }

    /// The tag of one variant, where the numbering has got to `next`.
    pub fn variant_tag(
        &mut self,
        env: &InferCx,
        name: &Symbol,
        payload: &VariantPayload,
        value: Option<NodeId>,
        next: i128,
    ) -> (r: i128)
        ensures
            (final(self)@, r) == variant_tag_spec(old(self)@, env, name, payload, value, next),
            crate::keeping::kept(old(self)@, final(self)@),
    {
        match value {
            Some(expr) => if is_unit_payload(payload) {
                let written = self.variant_tag_value(env, expr);
                match written {
                    Some(n) => n,
                    None => next,
                }
            } else {
                self.report_in(
                    env,
                    self.file,
                    expr,
                    say_name(
                        "`",
                        name,
                        "` carries a payload, so it may not be given an explicit discriminant",
                    ),
                );
                next
            },
            None => next,
        }
    }

    /// Number the variants of an enum: one without a written tag takes one more than
    /// the variant before it. Where nothing is complained about, no two variants have
    /// the same tag; and where no tag is written, they are numbered one after the
    /// other.
    pub fn stamp_variants(&mut self, env: &InferCx, l: &List<NodeId>, next: i128, seen: List<(i128, Symbol)>)
        ensures
            final(self)@ == stamp_variants_spec(old(self)@, env, l, next, seen),
            forall|w: NodeId| !l@.contains(w) ==> #[trigger] tag_of(final(self)@, w) == tag_of(old(self)@, w),
            l@.no_duplicates()
                && final(self)@.diags.len() == old(self)@.diags.len() ==> tags_apart(env.tables, final(self)@, l@)
                && tags_unseen(env.tables, final(self)@, l@, seen),
            l@.no_duplicates()
                && all_plain(env.tables, old(self)@.file, l@)
                && next + l@.len() <= i128::MAX ==> numbered_from(final(self)@, l@, next),
            crate::keeping::kept_but_types(old(self)@, final(self)@),
        decreases l,
    {
        proof {
            reveal(crate::keeping::kept);
        }
        match l {
            List::Nil => {},
            List::Cons(v, rest) => match kind_of(env.tables, self.file, *v) {
                Some(NodeKind::Variant { name, payload, value }) => {
                    let tag = self.variant_tag(env, name, payload, *value, next);
                    match tag_holder(&seen, tag) {
                        Some(other) => {
                            self.report_in(
                                env,
                                self.file,
                                *v,
                                list5(
                                    Part::Text("the discriminant "),
                                    Part::Tag(tag),
                                    Part::Text(" is already `"),
                                    Part::Name(other),
                                    Part::Text("`'s"),
                                ),
                            );
                        },
                        None => {},
                    }
                    self.set_variant_tag(self.file, *v, VariantTag(tag));
                    let after = match next_tag(tag) {
                        Some(n) => n,
                        None => {
                            self.report_in(
                                env,
                                self.file,
                                *v,
                                say("the discriminant after this one would not fit in 128 bits"),
                            );
                            tag
                        },
                    };
                    let ghost mid = self@;
                    self.stamp_variants(env, rest, after, append(seen, single((tag, dup_sym(name)))));
                    proof {
                        one_more_variant(
                            env.tables,
                            old(self)@,
                            mid,
                            self@,
                            *v,
                            **rest,
                            tag,
                            *name,
                            next,
                            seen,
                        );
                    }
                },
                _ => {
                    self.stamp_variants(env, rest, next, seen);
                    proof {
                        no_more_variant(env.tables, old(self)@, self@, *v, **rest, seen);
                    }
                },
            },
        }
    }

    /// Number the variants of the enum a node declares.
    pub fn stamp_enum(&mut self, env: &InferCx, i: u64)
        ensures
            final(self)@ == stamp_enum_spec(old(self)@, env, i),
            crate::keeping::kept_but_types(old(self)@, final(self)@),
    {
        proof {
            reveal(crate::keeping::kept);
        }
        match kind_of(env.tables, self.file, node_at(i)) {
            Some(NodeKind::EnumType { variants, generics: _ }) => {
                self.stamp_variants(env, variants, 0, List::Nil);
            },
            _ => {},
        }
    }

    /// Number the variants of every enum from a node on.
    pub fn stamp_variant_tags(&mut self, env: &InferCx, i: u64, n: u64)
        ensures
            final(self)@ == stamp_variant_tags_spec(old(self)@, env, i, n),
            crate::keeping::kept_but_types(old(self)@, final(self)@),
    {
        proof {
            reveal(crate::keeping::kept);
        }
        let ghost start = self@;
        let mut at: u64 = i;
        while at < n
            invariant
                stamp_variant_tags_spec(start, env, i, n) == stamp_variant_tags_spec(self@, env, at, n),
                crate::keeping::kept_but_types(start, self@),
            decreases n - at,
        {
            proof {
                reveal(crate::keeping::kept);
            }
            self.stamp_enum(env, at);
            at = at + 1;
        }
    }

    /// Record what each constant of an impl is generic over.
    pub fn stamp_consts(&mut self, env: &InferCx, l: &List<(Symbol, DefId)>, generics: &List<DefId>)
        ensures
            final(self)@ == stamp_consts_spec(old(self)@, env, l, generics),
            crate::keeping::kept(old(self)@, final(self)@),
        decreases l,
    {
        match l {
            List::Nil => {},
            List::Cons(h, rest) => {
                let m = resolve_alias(env.tables, h.1);
                match (def_kind(env.tables, m), def_node(env.tables, m)) {
                    (DefKind::Const, Some(node)) => {
                        self.set_generics(
                            self.file,
                            node,
                            Generics { params: dup_defs(generics), own: list_len(generics) },
                        );
                    },
                    _ => {},
                }
                self.stamp_consts(env, rest, generics);
            },
        }
    }

    /// Record what the constants of a generic impl are generic over.
    pub fn stamp_impl_consts(&mut self, env: &InferCx, i: u64)
        ensures
            final(self)@ == stamp_impl_consts_spec(old(self)@, env, i),
            crate::keeping::kept(old(self)@, final(self)@),
    {
        match get_impl(env, i) {
            Some(imp) => {
                if imp.file == self.file && !is_empty(&imp.generics) {
                    self.stamp_consts(env, &imp.members, &imp.generics);
                }
            },
            None => {},
        }
    }

    /// Record what the constants of every generic impl from one on are generic over.
    pub fn stamp_assoc_const_generics(&mut self, env: &InferCx, i: u64, n: u64)
        ensures
            final(self)@ == stamp_assoc_const_generics_spec(old(self)@, env, i, n),
            crate::keeping::kept(old(self)@, final(self)@),
    {
        let ghost start = self@;
        let mut at: u64 = i;
        while at < n
            invariant
                stamp_assoc_const_generics_spec(start, env, i, n) == stamp_assoc_const_generics_spec(self@, env, at, n),
                crate::keeping::kept(start, self@),
            decreases n - at,
        {
            self.stamp_impl_consts(env, at);
            at = at + 1;
        }
    }

    /// Record what an alias stands for.
    pub fn stamp_expansion(&mut self, env: &InferCx, def: DefId, ty: &Ty)
        ensures
            final(self)@ == stamp_expansion_spec(old(self)@, env, def, ty),
            crate::keeping::kept(old(self)@, final(self)@),
    {
        match def_node(env.tables, def) {
            Some(node) => {
                self.set_expansion(self.file, node, self.resolve(ty, DEPTH_LIMIT));
            },
            None => {},
        }
    }

    /// Check and record a binding whose right-hand side names a type.
    pub fn check_const_alias(&mut self, env: &InferCx, i: u64)
        ensures
            final(self)@ == check_const_alias_spec(old(self)@, env, i),
            crate::keeping::kept(old(self)@, final(self)@),
    {
        let d = def_at(i);
        if self.is_own(env, d, DefKind::Const) {
            let ty = self.const_alias_ty(env, d, DEPTH_LIMIT);
            match ty {
                Some(ty) => {
                    self.stamp_expansion(env, d, &ty);
                },
                None => {},
            }
        }
    }

    /// Check the bindings that name types from a definition on.
    pub fn check_const_aliases(&mut self, env: &InferCx, i: u64, n: u64)
        ensures
            final(self)@ == check_const_aliases_spec(old(self)@, env, i, n),
            crate::keeping::kept(old(self)@, final(self)@),
    {
        let ghost start = self@;
        let mut at: u64 = i;
        while at < n
            invariant
                check_const_aliases_spec(start, env, i, n) == check_const_aliases_spec(self@, env, at, n),
                crate::keeping::kept(start, self@),
            decreases n - at,
        {
            self.check_const_alias(env, at);
            at = at + 1;
        }
    }

    /// Check and record an alias.
    pub fn check_alias(&mut self, env: &InferCx, i: u64)
        ensures
            final(self)@ == check_alias_spec(old(self)@, env, i),
            crate::keeping::kept(old(self)@, final(self)@),
    {
        let d = def_at(i);
        if self.is_own(env, d, DefKind::TypeAlias) {
            let ty = self.expand_alias(env, d, DEPTH_LIMIT);
            self.stamp_expansion(env, d, &ty);
        }
    }

    /// Check the aliases from a definition on.
    pub fn check_aliases(&mut self, env: &InferCx, i: u64, n: u64)
        ensures
            final(self)@ == check_aliases_spec(old(self)@, env, i, n),
            crate::keeping::kept(old(self)@, final(self)@),
    {
        let ghost start = self@;
        let mut at: u64 = i;
        while at < n
            invariant
                check_aliases_spec(start, env, i, n) == check_aliases_spec(self@, env, at, n),
                crate::keeping::kept(start, self@),
            decreases n - at,
        {
            self.check_alias(env, at);
            at = at + 1;
        }
    }

    /// Expand every alias of the file being inferred: a declaration is a claim about
    /// a type whether or not anything uses it.
    pub fn check_type_aliases(&mut self, env: &InferCx)
        ensures
            final(self)@ == check_type_aliases_spec(old(self)@, env),
            crate::keeping::kept(old(self)@, final(self)@),
    {
        self.check_const_aliases(env, 0, def_count(env.tables));
        self.check_aliases(env, 0, def_count(env.tables));
    }
}

} // verus!
