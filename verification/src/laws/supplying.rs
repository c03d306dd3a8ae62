//! Laws of what supplies a method and of what a call's parts are held to.

use vstd::prelude::*;

use crate::ast::NodeKind;
use crate::calls::{infer_method_call_rebound_spec, infer_method_call_spec};
use crate::coerce::expect_spec;
use crate::def::{DefKind, ImplInfo};
use crate::exprs::{infer_expr_spec, BestMember};
use crate::facts::{DistinctRecv, MethodDispatch};
use crate::ids::{DefId, NodeId};
use crate::intrinsics::Special;
use crate::laws::settling::complains_once;
use crate::list::{List, DEPTH_LIMIT};
use crate::subst::Subst;
use crate::symbol::Symbol;
use crate::ty::Ty;
use crate::unify::{unify_spec, InferCx, InfererV, TyVarKind};

verus! {

// Methods that something else supplies.

/// A method nothing of the receiver itself has is looked for in order: an impl, the
/// `@using` field, and what a `distinct` type is distinct from. The first that has it
/// is called directly, on the receiver, on the field, or on what lies under it, and how
/// the receiver gets there is recorded.
pub proof fn a_supplied_method_is_looked_for_in_order(
    st: InfererV,
    env: &InferCx,
    callee: NodeId,
    base: NodeId,
    recv: Ty,
    name: Symbol,
    args: List<NodeId>,
    targs: List<NodeId>,
    lit: Option<TyVarKind>,
    fuel: u64,
)
    requires
        fuel > 0,
    ensures
        ({
            let less = (fuel - 1) as u64;
            let (a, written) = crate::calls::impl_method_def_spec(st, env, &recv, &name, less);
            let (b, using) = crate::calls::using_method_def_spec(a, env, &recv, &name, less);
            let (c, inherited) = crate::calls::distinct_method_def_spec(b, env, &recv, &name, less);
            let r = crate::calls::infer_supplied_call_spec(
                st,
                env,
                callee,
                base,
                recv,
                &name,
                &args,
                &targs,
                lit,
                fuel,
            );
            match (written, using, inherited) {
                (Some(m), _, _) => {
                    let call = infer_method_call_spec(
                        a,
                        env,
                        callee,
                        &recv,
                        m,
                        MethodDispatch::Static,
                        &args,
                        &targs,
                        less,
                    );
                    r == (call.0, Some(call.1))
                },
                (None, Some((m, up)), _) => {
                    let call = infer_method_call_spec(
                        crate::unify::set_upcast_spec(b, b.file, base, up),
                        env,
                        callee,
                        &up.target,
                        m,
                        MethodDispatch::Static,
                        &args,
                        &targs,
                        less,
                    );
                    r == (call.0, Some(call.1))
                },
                (None, None, Some((m, repr))) => {
                    let kept = crate::unify::set_distinct_recv_spec(c, c.file, base, DistinctRecv { repr: repr });
                    let call = infer_method_call_rebound_spec(
                        kept,
                        env,
                        callee,
                        &repr,
                        m,
                        MethodDispatch::Static,
                        &args,
                        &targs,
                        Some((repr, crate::unify::shallow_spec(kept, &recv, DEPTH_LIMIT))),
                        less,
                    );
                    r == (call.0, Some(call.1))
                },
                _ => true,
            }
        }),
{
}

/// An impl is weighed for a method exactly where it supplies one of the name, may be
/// reached by name, and fits the receiver.
pub proof fn an_impl_is_weighed_where_it_fits(
    st: InfererV,
    env: &InferCx,
    i: u64,
    imp: ImplInfo,
    s: Ty,
    name: Symbol,
    best: Option<BestMember>,
    fuel: u64,
)
    requires
        fuel > 0,
        i < u64::MAX,
        crate::solve::get_impl_spec(env, i) == Some(&imp),
    ensures
        ({
            let reachable = match imp.trait_def {
                Some(t) => env.in_scope@.contains(t) || env.lang_traits@.contains(t),
                None => true,
            };
            let (a, fits) = crate::solve::trial_impl_spec(st, env, i, &s, &List::Nil, (fuel - 1) as u64);
            let next = (i + 1) as u64;
            let all = crate::calls::consider_methods_spec(st, env, i, &s, &name, best, fuel);
            match crate::calls::impl_method_spec(env.tables, &imp, &name) {
                Some(m) => if reachable {
                    if fits {
                        all == crate::calls::consider_methods_spec(
                            a,
                            env,
                            next,
                            &s,
                            &name,
                            crate::exprs::consider_member_spec(best, crate::exprs::impl_score_spec(&imp), i, m),
                            fuel,
                        )
                    } else {
                        all == crate::calls::consider_methods_spec(a, env, next, &s, &name, best, fuel)
                    }
                } else {
                    all == crate::calls::consider_methods_spec(st, env, next, &s, &name, best, fuel)
                },
                None => all == crate::calls::consider_methods_spec(st, env, next, &s, &name, best, fuel),
            }
        }),
{
    match imp.trait_def {
        Some(t) => {
            crate::laws::generics::holding_is_being_among(*env.in_scope, t);
            crate::laws::generics::holding_is_being_among(*env.lang_traits, t);
        },
        None => {},
    }
}

/// Of what is weighed the better one stays, and one as good as it is noted as a tie.
pub proof fn the_better_member_stays(best: BestMember, score: u64, index: u64, member: DefId)
    ensures
        ({
            let r = crate::exprs::consider_member_spec(Some(best), score, index, member);
            &&& score < best.score ==> r == Some(best)
            &&& score == best.score ==> r == Some(BestMember { tied: true, ..best })
            &&& score > best.score ==> r == Some(
                BestMember { score: score, index: index, member: member, tied: false },
            )
        }),
        crate::exprs::consider_member_spec(None, score, index, member) == Some(
            BestMember { score: score, index: index, member: member, tied: false },
        ),
{
}

/// The method an impl supplies is the best that was weighed, and none where two are as
/// good; nothing is supplied for what is not known.
pub proof fn the_best_impl_supplies_the_method(
    st: InfererV,
    env: &InferCx,
    recv: Ty,
    name: Symbol,
    fuel: u64,
)
    requires
        fuel > 0,
    ensures
        ({
            let s = crate::unify::autoderef_spec(st, &recv, DEPTH_LIMIT);
            let (a, best) = crate::calls::consider_methods_spec(st, env, 0, &s, &name, None, (fuel - 1) as u64);
            let r = crate::calls::impl_method_def_spec(st, env, &recv, &name, fuel);
            match s {
                Ty::Error => r == (st, None::<DefId>),
                Ty::Var(_) => r == (st, None::<DefId>),
                _ => r == (
                    a,
                    match best {
                        Some(b) => if b.tied {
                            None
                        } else {
                            Some(b.member)
                        },
                        None => None,
                    },
                ),
            }
        }),
{
}

/// A `distinct` type has the methods of what it is distinct from, which is what they
/// are called on.
pub proof fn a_distinct_type_has_the_methods_under_it(
    st: InfererV,
    env: &InferCx,
    recv: Ty,
    name: Symbol,
    fuel: u64,
)
    requires
        fuel > 1,
    ensures
        ({
            let less = (fuel - 1) as u64;
            let (a, repr) = crate::types::distinct_repr_spec(st, env, &recv, less);
            let r = crate::calls::distinct_method_def_spec(st, env, &recv, &name, fuel);
            match repr {
                None => r.1 is None,
                Some(t) => match crate::calls::method_def_spec(a, env, &t, &name) {
                    Some(m) => r == (a, Some((m, t))),
                    None => match crate::calls::impl_method_def_spec(a, env, &t, &name, (fuel - 2) as u64).1 {
                        Some(m) => r.1 == Some((m, t)),
                        None => r.1 is None,
                    },
                },
            }
        }),
{
    let less = (fuel - 1) as u64;
    let (a, repr) = crate::types::distinct_repr_spec(st, env, &recv, less);
    match repr {
        Some(t) => {
            let found = crate::calls::any_method_def_spec(a, env, &t, &name, less);
            let r = crate::calls::distinct_method_def_spec(st, env, &recv, &name, fuel);
            assert(r.1 is Some == found.1 is Some);
        },
        None => {},
    }
}

/// A receiver is made to agree with the parameter that takes it: as it is where that
/// can be, else as what the parameter points at.
pub proof fn a_receiver_agrees_with_its_parameter(st: InfererV, param: Ty, recv: Ty)
    ensures
        ({
            let (a, clash) = unify_spec(st, &recv, &param, DEPTH_LIMIT);
            let after = crate::calls::unify_self_param_spec(st, &param, &recv);
            let back = InfererV {
                bindings: st.bindings,
                const_bindings: st.const_bindings,
                diverged: st.diverged,
                obligations: st.obligations,
                ..a
            };
            &&& clash is None ==> after == a
            &&& clash is Some ==> match crate::unify::shallow_spec(back, &param, DEPTH_LIMIT) {
                Ty::Ptr { mutable: _, inner } => {
                    let (b, through) = unify_spec(back, &recv, &*inner, DEPTH_LIMIT);
                    through is None ==> after == b
                },
                _ => true,
            }
        }),
{
}

// Calls that construct.

/// A call of a tuple struct holds each argument to the field at its position, in order.
pub proof fn constructed_fields_are_held_to_their_types(
    st: InfererV,
    env: &InferCx,
    a: NodeId,
    rest: List<NodeId>,
    want: Ty,
    wants: List<Ty>,
    fuel: u64,
)
    requires
        fuel > 0,
    ensures
        ({
            let less = (fuel - 1) as u64;
            let (mid, got) = infer_expr_spec(st, env, a, less);
            crate::calls::construct_fields_spec(
                st,
                env,
                &List::Cons(a, Box::new(rest)),
                &List::Cons(want, Box::new(wants)),
                fuel,
            ) == crate::calls::construct_fields_spec(
                expect_spec(mid, env, a, &got, &want, less),
                env,
                &rest,
                &wants,
                fuel,
            )
        }),
{
}

/// A call that constructs has as many arguments as the struct has fields; one that has
/// not, or that constructs what has no such fields, is complained about.
pub proof fn a_construction_has_as_many_arguments_as_fields(
    st: InfererV,
    env: &InferCx,
    callee: NodeId,
    ty: Ty,
    args: List<NodeId>,
    what: &'static str,
    fuel: u64,
)
    requires
        fuel > 0,
        what == "a tuple struct's fields are positions — use a composite literal to build one by field name",
    ensures
        ({
            let less = (fuel - 1) as u64;
            let a = crate::calls::reject_named_args_spec(st, env, &args, what);
            let (b, fields) = crate::types::tuple_struct_tys_spec(a, env, &ty, less);
            let after = crate::calls::check_construction_spec(st, env, callee, &ty, &args, fuel);
            let typed = crate::exprs::infer_exprs_spec(b, env, &args, less).0;
            match fields {
                Some(f) => if crate::list::list_len_spec(&f) == crate::list::list_len_spec(&args) {
                    after == crate::calls::construct_fields_spec(b, env, &args, &f, less)
                } else {
                    complains_once(typed, after)
                },
                None => if args@.len() > 0 {
                    complains_once(typed, after)
                } else {
                    after == typed
                },
            }
        }),
{
    reveal_with_fuel(crate::list::list_seq, 2);
}

/// A method called with as many arguments as it takes holds each to its parameter; one
/// called with another number is complained about once.
pub proof fn a_methods_arguments_are_held_to_its_parameters(
    st: InfererV,
    env: &InferCx,
    callee: NodeId,
    method: DefId,
    params: List<Ty>,
    slots: List<Option<NodeId>>,
    fuel: u64,
)
    requires
        fuel > 0,
    ensures
        ({
            let less = (fuel - 1) as u64;
            let (a, tys) = crate::calls::infer_slots_spec(st, env, &slots, &params, 0, less);
            let after = crate::calls::check_method_args_spec(st, env, callee, method, &params, &slots, fuel);
            if crate::list::list_len_spec(&params) == crate::list::list_len_spec(&tys) {
                after == crate::calls::expect_slots_spec(a, env, &params, &slots, &tys, less)
            } else {
                complains_once(a, after)
            }
        }),
{
}

/// What an intrinsic yields is what its signature says; of one that allocates it may be
/// written through whatever the signature says.
pub proof fn an_allocation_may_be_written(
    st: InfererV,
    env: &InferCx,
    def: DefId,
    result: Ty,
    slots: List<Option<NodeId>>,
    fuel: u64,
)
    requires
        fuel > 0,
    ensures
        ({
            let (after, ty) = crate::calls::intrinsic_result_spec(st, env, def, result, &slots, fuel);
            match crate::calls::special_of_spec(env.tables, def) {
                Some(Special::MutableArg) => after == st && match crate::unify::shallow_spec(
                    st,
                    &result,
                    DEPTH_LIMIT,
                ) {
                    Ty::Slice { mutable: _, inner } => ty == (Ty::Slice { mutable: true, inner: inner }),
                    Ty::Ptr { mutable: _, inner } => ty == (Ty::Ptr { mutable: true, inner: inner }),
                    other => ty == other,
                },
                Some(Special::SequenceArg) => ty == result,
                None => after == st && ty == result,
            }
        }),
{
}

// Instantiation.

/// A parameter is bound to the argument written at its position, and to something open
/// where none is, or a hole.
pub proof fn a_parameter_is_bound_to_what_is_written_for_it(
    st: InfererV,
    env: &InferCx,
    p: DefId,
    rest: List<DefId>,
    explicit: List<NodeId>,
    i: u64,
    map: Subst,
    fuel: u64,
)
    requires
        fuel > 0,
    ensures
        ({
            let less = (fuel - 1) as u64;
            let next = crate::list::succ_spec(i);
            let arg = if i < explicit@.len() {
                match crate::laws::typing::written(st, env, explicit@[i as int]) {
                    Some(NodeKind::TypeHole) => None,
                    _ => Some(explicit@[i as int]),
                }
            } else {
                None
            };
            let all = crate::calls::bind_params_spec(st, env, &List::Cons(p, Box::new(rest)), &explicit, i, map, fuel);
            if crate::def::def_kind_spec(env.tables, p) == DefKind::ConstParam {
                let (a, k) = match arg {
                    Some(n) => crate::types::const_arg_spec(st, env, p, n, less),
                    None => crate::unify::fresh_const_spec(st),
                };
                let bound = Subst { tys: map.tys, consts: List::Cons((p, k), Box::new(map.consts)) };
                all == crate::calls::bind_params_spec(a, env, &rest, &explicit, next, bound, fuel)
            } else {
                let (a, t) = match arg {
                    Some(n) => crate::types::ty_from_node_spec(st, env, n, less),
                    None => crate::unify::fresh_spec(st),
                };
                let bound = Subst { tys: List::Cons((p, t), Box::new(map.tys)), consts: map.consts };
                all == crate::calls::bind_params_spec(a, env, &rest, &explicit, next, bound, fuel)
            }
        }),
{
    crate::laws::fields::what_stands_at_a_position(explicit, i);
}

/// A parameter that is bound keeps what it is bound to, and one that is not becomes
/// open.
pub proof fn only_what_is_not_bound_is_opened(st: InfererV, d: DefId, rest: List<DefId>, map: Subst)
    ensures
        crate::calls::open_types_spec(st, &List::Cons(d, Box::new(rest)), map) == if crate::subst::find_ty_spec(
            &map.tys,
            d,
        ) is Some {
            crate::calls::open_types_spec(st, &rest, map)
        } else {
            let (a, t) = crate::unify::fresh_spec(st);
            crate::calls::open_types_spec(
                a,
                &rest,
                Subst { tys: List::Cons((d, t), Box::new(map.tys)), consts: map.consts },
            )
        },
        crate::calls::open_consts_spec(st, &List::Cons(d, Box::new(rest)), map)
            == if crate::subst::find_const_spec(&map.consts, d) is Some {
            crate::calls::open_consts_spec(st, &rest, map)
        } else {
            let (a, k) = crate::unify::fresh_const_spec(st);
            crate::calls::open_consts_spec(
                a,
                &rest,
                Subst { tys: map.tys, consts: List::Cons((d, k), Box::new(map.consts)) },
            )
        },
{
}

} // verus!
