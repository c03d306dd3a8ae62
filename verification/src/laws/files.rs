//! Laws of what is done over a whole file: which declarations are read, and what each
//! is read as.

use vstd::prelude::*;

use crate::ast::{NodeKind, VariantPayload};
use crate::def::{DefKind, ImplInfo};
use crate::facts::ImplTarget;
use crate::ids::{DefId, FileId, NodeId};
use crate::laws::reading::at;
use crate::laws::settling::complains_once;
use crate::laws::typing::{opens, written};
use crate::list::{List, DEPTH_LIMIT};
use crate::symbol::Symbol;
use crate::ty::{Const, ConstValue, Ty};
use crate::types::{ty_from_node_in_spec, tys_from_nodes_spec};
use crate::unify::{InferCx, InfererV};

verus! {

// Impls.

/// The target of an impl that was typed before is the one it was typed with; of one
/// that is written, the type written for it and the arguments written for its trait, in
/// order, read in the impl's own file.
pub proof fn a_target_is_what_is_written(st: InfererV, env: &InferCx, imp: ImplInfo)
    ensures
        ({
            let (_, r) = crate::infer::resolve_target_spec(st, env, &imp);
            match (imp.typed, imp.syntax) {
                (Some(t), _) => r.0 == (ImplTarget { self_ty: t.self_ty, trait_args: t.trait_args }),
                (None, Some(sx)) => crate::def::has_ast_spec(env.tables, imp.file) ==> {
                    let begun = crate::infer::restart_spec(InfererV { file: imp.file, ..st }, None);
                    let (a, self_ty) = ty_from_node_in_spec(begun, env, imp.file, sx.self_node, DEPTH_LIMIT);
                    let (b, args) = tys_from_nodes_spec(a, env, &sx.trait_args, imp.file, DEPTH_LIMIT);
                    &&& r.0 == (ImplTarget { self_ty: self_ty, trait_args: args })
                    &&& r.1 matches Some(t) ==> {
                        &&& t.self_ty == self_ty
                        &&& t.trait_args == args
                        &&& t.assoc == crate::infer::assoc_tys_spec(b, env, &sx.assoc, imp.file).1
                    }
                },
                _ => true,
            }
        }),
{
}

/// The associated types of an impl are read in order, each under its own name.
pub proof fn associated_types_keep_their_names(
    st: InfererV,
    env: &InferCx,
    file: FileId,
    name: Symbol,
    node: NodeId,
    rest: List<(Symbol, NodeId)>,
)
    ensures
        ({
            let (a, t) = ty_from_node_in_spec(st, env, file, node, DEPTH_LIMIT);
            let (b, others) = crate::infer::assoc_tys_spec(a, env, &rest, file);
            crate::infer::assoc_tys_spec(st, env, &List::Cons((name, node), Box::new(rest)), file) == (
                b,
                List::Cons((name, t), Box::new(others)),
            )
        }),
{
}

// Parameters.

/// The bounds of a parameter are the traits that are named, in order, with the
/// arguments written for each.
pub proof fn bounds_are_read_in_order(
    st: InfererV,
    env: &InferCx,
    file: FileId,
    b: NodeId,
    rest: List<NodeId>,
)
    ensures
        ({
            let all = crate::infer::bound_list_spec(st, env, file, &List::Cons(b, Box::new(rest)));
            match crate::infer::trait_named_spec(st, env, file, b) {
                Some(t) => {
                    let (a, args) = crate::types::bound_trait_args_in_spec(st, env, file, b, DEPTH_LIMIT);
                    let (c, others) = crate::infer::bound_list_spec(a, env, file, &rest);
                    all == (c, List::Cons((t, args), Box::new(others)))
                },
                None => all == crate::infer::bound_list_spec(st, env, file, &rest),
            }
        }),
{
}

/// What a parameter's declaration says is read for the parameters of the file alone:
/// what it is pinned to, its bounds, and what it turned out to be.
pub proof fn a_parameter_says_what_is_written(st: InfererV, env: &InferCx, i: u64)
    ensures
        ({
            let d = crate::ids::def_at_spec(i);
            let (after, r) = crate::infer::param_decl_at_spec(st, env, i);
            let own = crate::def::def_kind_spec(env.tables, d) == DefKind::TypeParam
                && crate::def::def_file_spec(env.tables, d) == Some(st.file);
            let (a, pinned) = crate::infer::pinned_ty_spec(st, env, d);
            let (b, bounds) = crate::infer::declared_bounds_spec(a, env, d);
            if !own {
                after == st && r is None
            } else {
                &&& after == b
                &&& match r {
                    Some(x) => {
                        &&& x.0 == d
                        &&& x.1.bounds == bounds
                        &&& x.1.pinned == pinned
                        &&& x.1.revealed == crate::infer::revealed_ty_spec(b, env, d)
                    },
                    None => bounds == List::<(DefId, List<Ty>)>::Nil && pinned is None
                        && crate::infer::revealed_ty_spec(b, env, d) is None,
                }
            }
        }),
{
}

// Constants.

/// A constant of the file is folded from what is written for it.
pub proof fn a_constant_is_folded_from_what_is_written(
    st: InfererV,
    env: &InferCx,
    i: u64,
    node: NodeId,
    pattern: NodeId,
    rhs: NodeId,
)
    requires
        crate::def::def_node_spec(env.tables, crate::ids::def_at_spec(i)) == Some(node),
        written(st, env, node) == Some(NodeKind::ConstBind { pattern: pattern, rhs: rhs }),
    ensures
        ({
            let d = crate::ids::def_at_spec(i);
            let (after, r) = crate::infer::const_value_at_spec(st, env, i);
            let (a, v) = crate::types::const_operand_spec(
                st,
                env,
                st.file,
                rhs,
                "a constant",
                0,
                DEPTH_LIMIT,
            );
            if crate::def::def_kind_spec(env.tables, d) == DefKind::Const
                && crate::def::def_file_spec(env.tables, d) == Some(st.file) {
                match v {
                    Some(v) => after == a && r == Some((d, v)),
                    None => after == a && r is None,
                }
            } else {
                after == st && r is None
            }
        }),
{
}

/// A name in a compile-time expression stands for the value recorded for its constant,
/// or for what is written for it; a parameter has no value yet, and what names no
/// constant has none, which is complained about.
pub proof fn a_name_stands_for_its_constants_value(
    st: InfererV,
    env: &InferCx,
    file: FileId,
    node: NodeId,
    what: &'static str,
    depth: u32,
    named: DefId,
    fuel: u64,
)
    requires
        fuel > 0,
        depth < u32::MAX,
        crate::decls::resolved_def_in_spec(st, env, file, node) == Some(named),
    ensures
        ({
            let def = crate::def::resolve_alias_spec(env.tables, named);
            let r = crate::types::const_name_operand_spec(st, env, file, node, what, depth, fuel);
            match crate::def::def_kind_spec(env.tables, def) {
                DefKind::Const => match (
                    crate::decls::recorded_const_value_spec(env.tables, def),
                    crate::types::const_rhs_of_spec(env.tables, def),
                ) {
                    (Some(v), _) => r == (st, Some(v)),
                    (None, Some((f, rhs))) => r == crate::types::const_operand_spec(
                        st,
                        env,
                        f,
                        rhs,
                        what,
                        (depth + 1) as u32,
                        (fuel - 1) as u64,
                    ),
                    (None, None) => r.1 is None,
                },
                _ => r.1 is None,
            }
        }),
{
}

// Aliases.

/// An alias stands for the type written for it, read where it is declared; a `distinct`
/// one stands for itself, and so does one that is being read already.
pub proof fn an_alias_stands_for_what_is_written(
    st: InfererV,
    env: &InferCx,
    def: DefId,
    file: FileId,
    node: NodeId,
    fuel: u64,
)
    requires
        fuel > 0,
        !crate::decls::has_decl_spec(env.tables, def),
        crate::def::def_place_spec(env.tables, def) == Some((file, node)),
    ensures
        ({
            let rhs = crate::def::bound_rhs_spec(env.tables, file, node);
            let r = crate::types::expand_alias_spec(st, env, def, fuel);
            let itself = Ty::Nominal { def: def, args: Box::new(List::Nil) };
            if crate::def::def_in_spec(&st.alias_stack, def) {
                r == (st, itself)
            } else {
                match at(env, file, rhs) {
                    Some(NodeKind::DistinctType { .. }) => r == (st, itself),
                    Some(NodeKind::AssocType { .. }) => opens(st, r.0, r.1),
                    _ => r.1 == ty_from_node_in_spec(
                        InfererV { alias_stack: List::Cons(def, Box::new(st.alias_stack)), ..st },
                        env,
                        file,
                        rhs,
                        (fuel - 1) as u64,
                    ).1,
                }
            }
        }),
{
}

// Members.

/// The declared type of a field, of a `distinct` type and of an associated constant is
/// recorded on its own node.
pub proof fn a_member_is_recorded_with_its_declared_type(
    st: InfererV,
    env: &InferCx,
    i: u64,
)
    ensures
        ({
            let node = crate::ids::node_at_spec(i);
            let after = crate::members::stamp_member_spec(st, env, i);
            match written(st, env, node) {
                Some(NodeKind::Field { name: _, ty }) => {
                    let (a, t) = crate::types::ty_from_node_spec(st, env, ty, DEPTH_LIMIT);
                    after == crate::unify::set_ty_spec(a, a.file, node, t)
                },
                Some(NodeKind::DistinctType { inner }) => {
                    let (a, t) = crate::types::ty_from_node_spec(st, env, inner, DEPTH_LIMIT);
                    after == crate::unify::set_ty_spec(a, a.file, inner, t)
                },
                Some(NodeKind::AssocConst { ty, default: _ }) => {
                    let (a, t) = crate::types::ty_from_node_spec(st, env, ty, DEPTH_LIMIT);
                    after == crate::unify::set_ty_spec(a, a.file, node, t)
                },
                Some(NodeKind::Variant { name: _, payload: VariantPayload::Tuple(types), value: _ }) => after
                    == crate::members::stamp_types_spec(st, env, &types),
                Some(NodeKind::Call { .. }) => after == st,
                _ => true,
            }
        }),
{
}

/// The types of a payload are recorded one by one, each on its own node.
pub proof fn payload_types_are_recorded_in_order(
    st: InfererV,
    env: &InferCx,
    h: NodeId,
    rest: List<NodeId>,
)
    ensures
        ({
            let (a, t) = crate::types::ty_from_node_spec(st, env, h, DEPTH_LIMIT);
            crate::members::stamp_types_spec(st, env, &List::Cons(h, Box::new(rest)))
                == crate::members::stamp_types_spec(
                crate::unify::set_ty_spec(a, a.file, h, t),
                env,
                &rest,
            )
        }),
{
}

/// An impl is held to its trait with the trait standing for the impl's own type, and
/// the trait's parameters and associated types for what the impl writes.
pub proof fn an_impl_is_held_to_its_trait(st: InfererV, env: &InferCx, i: u64, imp: ImplInfo, named: DefId)
    requires
        crate::solve::get_impl_spec(env, i) == Some(&imp),
        imp.trait_def == Some(named),
    ensures
        ({
            let t = crate::def::resolve_alias_spec(env.tables, named);
            let nothing = crate::subst::Subst { tys: List::Nil, consts: List::Nil };
            let (a, map) = crate::solve::fresh_impl_map_spec(st, env, &imp.generics, nothing);
            let (b, self_ty) = crate::solve::impl_self_ty_spec(a, env, &imp, &map, DEPTH_LIMIT);
            let map = crate::subst::Subst { tys: List::Cons((t, self_ty), Box::new(map.tys)), consts: map.consts };
            let generics = crate::decls::declared_generics_spec(b, env, t);
            let (c, map) = crate::members::bind_trait_generics_spec(b, env, &generics, &imp, 0, map);
            let assocs = crate::calls::assocs_of_spec(env.tables, t);
            let (d, map) = crate::members::bind_trait_assocs_spec(c, env, &assocs, &imp, map);
            crate::members::check_impl_conformance_spec(st, env, i) == crate::members::check_members_spec(
                d,
                env,
                &crate::members::members_of_spec(env.tables, t),
                &imp,
                t,
                &map,
            )
        }),
{
}

/// A trait's parameter stands for what the impl writes at its position, and a trait's
/// associated type for what the impl binds under its name.
pub proof fn a_traits_parameters_stand_for_what_the_impl_writes(
    st: InfererV,
    env: &InferCx,
    g: DefId,
    rest: List<DefId>,
    imp: ImplInfo,
    i: u64,
    map: crate::subst::Subst,
    name: Symbol,
    others: List<(Symbol, DefId)>,
)
    ensures
        ({
            let (a, args) = crate::solve::impl_trait_args_spec(st, env, &imp, DEPTH_LIMIT);
            let (b, t) = if i < args@.len() {
                (a, crate::subst::subst_ty_spec(&args@[i as int], &map))
            } else {
                crate::unify::fresh_spec(a)
            };
            crate::members::bind_trait_generics_spec(st, env, &List::Cons(g, Box::new(rest)), &imp, i, map)
                == crate::members::bind_trait_generics_spec(
                b,
                env,
                &rest,
                &imp,
                crate::list::succ_spec(i),
                crate::subst::Subst { tys: List::Cons((g, t), Box::new(map.tys)), consts: map.consts },
            )
        }),
        ({
            let (a, bound) = crate::solve::impl_assoc_spec(st, env, &imp, &name, DEPTH_LIMIT);
            let (b, t) = match bound {
                Some(t) => (a, crate::subst::subst_ty_spec(&t, &map)),
                None => crate::unify::fresh_spec(a),
            };
            crate::members::bind_trait_assocs_spec(st, env, &List::Cons((name, g), Box::new(others)), &imp, map)
                == crate::members::bind_trait_assocs_spec(
                b,
                env,
                &others,
                &imp,
                crate::subst::Subst { tys: List::Cons((g, t), Box::new(map.tys)), consts: map.consts },
            )
        }),
{
    let (_, args) = crate::solve::impl_trait_args_spec(st, env, &imp, DEPTH_LIMIT);
    crate::laws::fields::what_stands_at_a_position(args, i);
}

// Inline types.

/// An inline struct takes no parameters and has no positions: either is complained
/// about, and is no type; one without fields is one.
pub proof fn an_inline_struct_has_named_fields(
    st: InfererV,
    env: &InferCx,
    file: FileId,
    node: NodeId,
    generics: List<NodeId>,
    kind: crate::ast::StructKind,
    fuel: u64,
)
    requires
        fuel > 0,
    ensures
        ({
            let (after, t) = crate::types::anon_struct_ty_spec(st, env, file, node, &generics, &kind, fuel);
            if generics@.len() > 0 {
                t == Ty::Error && complains_once(st, after)
            } else {
                match kind {
                    crate::ast::StructKind::Unit => after == st && t == Ty::Struct(Box::new(List::Nil)),
                    crate::ast::StructKind::Tuple(_) => t == Ty::Error && complains_once(st, after),
                    crate::ast::StructKind::Record(ids) => {
                        let (a, fields) = crate::types::anon_fields_spec(
                            st,
                            env,
                            file,
                            &ids,
                            List::Nil,
                            (fuel - 1) as u64,
                        );
                        after == a && t == match fields {
                            Some(fs) => Ty::Struct(Box::new(crate::subst::sort_named_spec(fs))),
                            None => Ty::Error,
                        }
                    },
                }
            }
        }),
{
    reveal_with_fuel(crate::list::list_seq, 2);
}

/// The fields of an inline struct keep their names and have the types written for them,
/// in order; a name given twice is complained about once, and makes no type.
pub proof fn inline_fields_keep_their_names(
    st: InfererV,
    env: &InferCx,
    file: FileId,
    m: NodeId,
    rest: List<NodeId>,
    name: Symbol,
    ty: NodeId,
    seen: List<(Symbol, Ty)>,
    fuel: u64,
)
    requires
        fuel > 0,
        at(env, file, m) == Some(NodeKind::Field { name: name, ty: ty }),
    ensures
        ({
            let all = crate::types::anon_fields_spec(st, env, file, &List::Cons(m, Box::new(rest)), seen, fuel);
            if crate::ty::find_named_spec(&seen, &name) is Some {
                all.1 is None && complains_once(st, all.0)
            } else {
                let (a, t) = ty_from_node_in_spec(st, env, file, ty, (fuel - 1) as u64);
                let more = crate::list::append_spec(seen, crate::list::single_spec((name, t)));
                all == crate::types::anon_fields_spec(a, env, file, &rest, more, fuel)
            }
        }),
{
}

/// A member of an integer family has the width written for it: one bit without a sign
/// is a truth, one with a sign is no type, and a width that is not known yet stays open.
pub proof fn an_integer_family_has_its_width(
    st: InfererV,
    env: &InferCx,
    file: FileId,
    node: NodeId,
    signed: bool,
    arg: NodeId,
    fuel: u64,
)
    requires
        fuel > 0,
    ensures
        ({
            let (a, read) = crate::types::const_value_in_spec(
                st,
                env,
                file,
                arg,
                &Ty::ComptimeInt,
                "an integer width",
                0,
                (fuel - 1) as u64,
            );
            let (after, t) = crate::types::int_family_ty_spec(
                st,
                env,
                file,
                node,
                signed,
                &List::Cons(arg, Box::new(List::Nil)),
                fuel,
            );
            match read {
                Const::Value(_, ConstValue::Int(n)) => match crate::types::int_to_width_spec(&n) {
                    Some(w) => if w == 1 && !signed {
                        after == a && t == Ty::Bool
                    } else if w == 1 {
                        t == Ty::Error && complains_once(a, after)
                    } else {
                        after == a && t == (Ty::Int { signed: signed, width: Const::Width(w) })
                    },
                    None => t == Ty::Error && complains_once(a, after),
                },
                other => after == a && t == (Ty::Int { signed: signed, width: other }),
            }
        }),
{
}

// The whole file.

/// A file's declarations are checked before its bodies are inferred, and those before
/// its constants: every node is looked at for a body, and every definition for a
/// constant.
pub proof fn a_file_is_inferred_whole(st: InfererV, env: &InferCx, ns: DefId)
    ensures
        ({
            let a = crate::infer::check_declarations_spec(st, env, ns);
            let b = crate::infer::infer_funcs_spec(
                a,
                env,
                ns,
                0,
                crate::def::node_count_spec(env.tables, a.file),
            );
            crate::infer::infer_all_spec(st, env, ns) == crate::infer::infer_globals_spec(
                b,
                env,
                ns,
                0,
                crate::def::def_count_spec(env.tables),
            )
        }),
{
}

/// Every body and every constant of a range is inferred, one after the other.
pub proof fn bodies_and_constants_are_inferred_in_order(
    st: InfererV,
    env: &InferCx,
    ns: DefId,
    i: u64,
    n: u64,
)
    requires
        i < n,
    ensures
        crate::infer::infer_funcs_spec(st, env, ns, i, n) == crate::infer::infer_funcs_spec(
            crate::infer::infer_func_at_spec(st, env, ns, i),
            env,
            ns,
            (i + 1) as u64,
            n,
        ),
        crate::infer::infer_globals_spec(st, env, ns, i, n) == crate::infer::infer_globals_spec(
            crate::infer::infer_global_at_spec(st, env, ns, i),
            env,
            ns,
            (i + 1) as u64,
            n,
        ),
{
}

/// A function with a body, or with a convention to be called by, is inferred from a
/// clean start, and settled before anything else; any other node is passed over.
pub proof fn each_body_is_inferred_from_a_clean_start(st: InfererV, env: &InferCx, ns: DefId, i: u64)
    ensures
        ({
            let node = crate::ids::node_at_spec(i);
            let begun = crate::infer::restart_spec(st, Some(ns));
            let body = crate::bodies::infer_func_spec(begun, env, node);
            let is_func = match written(st, env, node) {
                Some(NodeKind::FuncExpr { generics: _, params: _, ret: _, body, abi }) => body is Some || abi is Some,
                _ => false,
            };
            crate::infer::infer_func_at_spec(st, env, ns, i) == if is_func {
                crate::bodies::finish_spec(body, env)
            } else {
                st
            }
        }),
{
}

} // verus!
