//! Laws of calls: what is called, how it is reached, and what its arguments are
//! held to.

use vstd::prelude::*;

use crate::ast::NodeKind;
use crate::calls::{
    apply_call_with_spec, expect_slots_spec, infer_method_call_rebound_spec, infer_method_call_spec,
    infer_slots_spec, recv_adjust_spec,
};
use crate::coerce::expect_spec;
use crate::def::DefKind;
use crate::facts::{MethodDispatch, RecvAdjust};
use crate::ids::{DefId, NodeId};
use crate::laws::agreement::{fits, lengths_fit, reach};
use crate::laws::demands::a_fitting_value_is_accepted;
use crate::list::List;
use crate::subst::Subst;
use crate::symbol::Symbol;
use crate::ty::Ty;
use crate::unify::{settled, InferCx, InfererV};

verus! {

// Finding a method.

/// Whether a definition is a function a namespace holds under a name.
pub open spec fn holds_method(env: &InferCx, owner: DefId, name: Symbol, m: DefId) -> bool {
    &&& crate::def::member_of_spec(env.tables, owner, &name) == Some(m)
    &&& crate::def::def_kind_spec(env.tables, m) == DefKind::Func
}

/// A type's own method is the function its namespace holds under that name, whether it
/// is asked of a value or of a pointer to one.
pub proof fn an_own_method_is_in_the_namespace(
    st: InfererV,
    env: &InferCx,
    recv: Ty,
    def: DefId,
    args: List<Ty>,
    name: Symbol,
)
    requires
        crate::laws::fields::is_of(recv, def, args),
    ensures
        match crate::calls::method_def_spec(st, env, &recv, &name) {
            Some(m) => holds_method(env, def, name, m),
            None => forall|m: DefId| !holds_method(env, def, name, m),
        },
{
    reveal_with_fuel(crate::unify::autoderef_spec, 3);
    reveal_with_fuel(crate::unify::shallow_spec, 2);
}

/// A trait object's method is the function its own trait declares under that name.
pub proof fn an_objects_method_is_its_traits(
    st: InfererV,
    env: &InferCx,
    mutable: bool,
    def: DefId,
    assoc: List<(Symbol, Ty)>,
    name: Symbol,
)
    ensures
        ({
            let object = Ty::Dyn { def: def, assoc: Box::new(assoc) };
            let recv = Ty::Ptr { mutable: mutable, inner: Box::new(object) };
            match crate::calls::dyn_method_def_spec(st, env, &recv, &name) {
                Some(m) => holds_method(env, def, name, m),
                None => forall|m: DefId| !holds_method(env, def, name, m),
            }
        }),
{
    reveal_with_fuel(crate::unify::shallow_spec, 2);
}

/// Of the traits a parameter is bounded by, the first that is in scope and has a
/// method of the name answers.
pub proof fn the_first_bound_in_scope_answers(env: &InferCx, traits: List<DefId>, name: Symbol)
    ensures
        match crate::calls::bound_method_in_spec(env, &traits, &name) {
            Some((t, m)) => {
                &&& crate::def::def_in_spec(&traits, t)
                &&& crate::def::def_in_spec(env.in_scope, t)
                &&& holds_method(env, t, name, m)
            },
            None => forall|t: DefId, m: DefId|
                crate::def::def_in_spec(&traits, t) && crate::def::def_in_spec(env.in_scope, t)
                    ==> !#[trigger] holds_method(env, t, name, m),
        },
    decreases traits,
{
    match traits {
        List::Nil => {},
        List::Cons(t, rest) => the_first_bound_in_scope_answers(env, *rest, name),
    }
}

/// An impl supplies what it defines under a name, and where it defines nothing what its
/// trait gives a body; in either case only a function.
pub proof fn an_impl_supplies_its_own_or_its_traits(env: &InferCx, imp: crate::def::ImplInfo, name: Symbol)
    ensures
        match (
            crate::calls::impl_method_spec(env.tables, &imp, &name),
            crate::def::find_member_spec(&imp.members, &name),
        ) {
            (Some(m), Some(own)) => m == own && crate::def::def_kind_spec(env.tables, m) == DefKind::Func,
            (Some(m), None) => match imp.trait_def {
                Some(t) => {
                    &&& crate::decls::trait_default_method_spec(env.tables, t, &name) == Some(m)
                    &&& crate::def::def_kind_spec(env.tables, m) == DefKind::Func
                },
                None => false,
            },
            (None, Some(own)) => crate::def::def_kind_spec(env.tables, own) != DefKind::Func,
            (None, None) => true,
        },
{
}

/// What is found for a receiver, asked in order: its own namespace, a bound, and the
/// trait of a trait object. The first that has a method is called, reached as that
/// place says.
pub proof fn a_member_call_asks_in_order(
    st: InfererV,
    env: &InferCx,
    callee: NodeId,
    base: NodeId,
    name: Symbol,
    args: List<NodeId>,
    targs: List<NodeId>,
    fuel: u64,
)
    requires
        fuel > 0,
    ensures
        ({
            let less = (fuel - 1) as u64;
            let (a, ty) = crate::exprs::infer_expr_spec(st, env, base, less);
            let (b, ty) = crate::unify::pin_str_spec(a, &ty);
            let (c, ty) = crate::solve::settle_spec(b, env, &ty, less);
            let (d, recv) = crate::unify::pin_numeric_spec(c, &ty);
            let (e, bound) = crate::calls::bound_method_def_spec(d, env, &recv, &name, less);
            let r = crate::calls::infer_member_call_spec(st, env, callee, base, &name, &args, &targs, fuel);
            match crate::calls::method_def_spec(d, env, &recv, &name) {
                Some(m) => {
                    let call = infer_method_call_spec(
                        d,
                        env,
                        callee,
                        &recv,
                        m,
                        MethodDispatch::Static,
                        &args,
                        &targs,
                        less,
                    );
                    r == (call.0, Some(call.1))
                },
                None => match bound {
                    Some((m, bound_args)) => {
                        let how = match crate::calls::declaring_trait_spec(env.tables, m) {
                            Some(t) => MethodDispatch::Generic { trait_def: t, args: bound_args },
                            None => MethodDispatch::Static,
                        };
                        let call = infer_method_call_spec(e, env, callee, &recv, m, how, &args, &targs, less);
                        r == (call.0, Some(call.1))
                    },
                    None => match crate::calls::dyn_method_def_spec(e, env, &recv, &name) {
                        Some(m) => {
                            let call = crate::calls::infer_dyn_call_spec(
                                e,
                                env,
                                callee,
                                &recv,
                                m,
                                &name,
                                &args,
                                &targs,
                                less,
                            );
                            r == (call.0, Some(call.1))
                        },
                        None => true,
                    },
                },
            }
        }),
{
}

/// A method of a trait object that needs no size is called through the slot of the
/// trait that declares it.
pub proof fn a_trait_object_is_called_through_its_trait(
    st: InfererV,
    env: &InferCx,
    callee: NodeId,
    recv: Ty,
    m: DefId,
    t: DefId,
    name: Symbol,
    args: List<NodeId>,
    targs: List<NodeId>,
    fuel: u64,
)
    requires
        fuel > 0,
        !crate::lower::sized_self_spec(env.tables, m),
        crate::calls::declaring_trait_spec(env.tables, m) == Some(t),
    ensures
        crate::calls::infer_dyn_call_spec(st, env, callee, &recv, m, &name, &args, &targs, fuel)
            == infer_method_call_spec(
            st,
            env,
            callee,
            &recv,
            m,
            MethodDispatch::Virtual(t),
            &args,
            &targs,
            (fuel - 1) as u64,
        ),
{
}

// Receivers.

/// A method that takes its receiver by pointer gets the address of a value, with the
/// permission it asks for, and a pointer as it is; one that takes it by value gets a
/// value as it is, and a pointer read through.
pub proof fn a_receiver_is_brought_to_its_parameter(
    st: InfererV,
    mutable: bool,
    other: bool,
    a: Ty,
    value: Ty,
)
    requires
        match value {
            Ty::Var(_) => false,
            Ty::Ptr { .. } => false,
            _ => true,
        },
    ensures
        ({
            let by_ptr = Ty::Ptr { mutable: mutable, inner: Box::new(a) };
            let ptr = Ty::Ptr { mutable: other, inner: Box::new(a) };
            &&& recv_adjust_spec(st, &by_ptr, &value) == RecvAdjust::Ref { mutable: mutable }
            &&& recv_adjust_spec(st, &by_ptr, &ptr) == RecvAdjust::Keep
            &&& recv_adjust_spec(st, &value, &ptr) == RecvAdjust::Deref
            &&& recv_adjust_spec(st, &value, &value) == RecvAdjust::Keep
        }),
{
    reveal_with_fuel(crate::unify::shallow_spec, 2);
}

/// A method call is recorded with the method that was found and how it is reached, as
/// they were given.
pub proof fn a_method_call_records_what_was_found(
    st: InfererV,
    env: &InferCx,
    callee: NodeId,
    recv: Ty,
    method: DefId,
    dispatch: MethodDispatch,
    args: List<NodeId>,
    targs: List<NodeId>,
    rebind: Option<(Ty, Ty)>,
    fuel: u64,
)
    requires
        fuel > 0,
    ensures
        ({
            let less = (fuel - 1) as u64;
            let (a, sig) = crate::types::func_def_ty_spec(st, env, method, less);
            let (b, opened) = crate::calls::trait_self_subst_spec(a, env, callee, method, &recv, less);
            let seed = match opened {
                Some(s) => s,
                None => Subst { tys: List::Nil, consts: List::Nil },
            };
            let (c, parts) = crate::calls::instantiate_parts_spec(b, env, callee, &sig, method, &targs, seed, less);
            let d = crate::unify::set_type_spec(c, callee, parts.0);
            let (after, ty) = infer_method_call_rebound_spec(
                st,
                env,
                callee,
                &recv,
                method,
                dispatch,
                &args,
                &targs,
                rebind,
                fuel,
            );
            match crate::unify::shallow_spec(d, &parts.0, crate::list::DEPTH_LIMIT) {
                Ty::Func { params, ret, c: _ } => {
                    &&& rebind is None ==> ty == *ret
                    &&& params@.len() > 0 ==> {
                        let key = crate::ids::node_key_spec(
                            crate::calls::unify_self_param_spec(d, &params@[0], &recv).file,
                            callee,
                        );
                        let res = after.facts.method_res[key];
                        &&& after.facts.method_res.dom().contains(key)
                        &&& res.method == method
                        &&& res.dispatch == dispatch
                        &&& res.adjust == recv_adjust_spec(
                            crate::calls::unify_self_param_spec(d, &params@[0], &recv),
                            &params@[0],
                            &recv,
                        )
                    }
                },
                _ => ty == Ty::Error,
            }
        }),
{
    let less = (fuel - 1) as u64;
    let (a, sig) = crate::types::func_def_ty_spec(st, env, method, less);
    let (b, opened) = crate::calls::trait_self_subst_spec(a, env, callee, method, &recv, less);
    let seed = match opened {
        Some(s) => s,
        None => Subst { tys: List::Nil, consts: List::Nil },
    };
    let (c, parts) = crate::calls::instantiate_parts_spec(b, env, callee, &sig, method, &targs, seed, less);
    let d = crate::unify::set_type_spec(c, callee, parts.0);
    match crate::unify::shallow_spec(d, &parts.0, crate::list::DEPTH_LIMIT) {
        Ty::Func { params, ret: _, c: _ } => match *params {
            List::Nil => {},
            List::Cons(p, rest) => {
                assert(params@ =~= seq![p] + rest@);
                assert(crate::list::nth_spec(&*params, 0) == Some(&p));
            },
        },
        _ => {},
    }
}

// Arguments.

/// Each argument is inferred against the parameter at its position, in order, one for
/// one.
pub proof fn each_argument_is_inferred_against_its_parameter(
    st: InfererV,
    env: &InferCx,
    slot: Option<NodeId>,
    rest: List<Option<NodeId>>,
    wanted: List<Ty>,
    i: u64,
    fuel: u64,
)
    requires
        fuel > 0,
    ensures
        ({
            let want = if i < wanted@.len() {
                Some(wanted@[i as int])
            } else {
                None
            };
            let all = infer_slots_spec(st, env, &List::Cons(slot, Box::new(rest)), &wanted, i, fuel);
            match slot {
                Some(n) => {
                    let (mid, t) = crate::exprs::infer_arg_spec(st, env, n, want, (fuel - 1) as u64);
                    let others = infer_slots_spec(mid, env, &rest, &wanted, crate::list::succ_spec(i), fuel);
                    all == (others.0, List::Cons(Some(t), Box::new(others.1)))
                },
                None => {
                    let others = infer_slots_spec(st, env, &rest, &wanted, crate::list::succ_spec(i), fuel);
                    all == (others.0, List::Cons(None, Box::new(others.1)))
                },
            }
        }),
{
    crate::laws::fields::what_stands_at_a_position(wanted, i);
}

/// Each argument is held to the parameter at its position, in order, and none is left
/// out; what is past the parameters is a variadic tail.
pub proof fn each_argument_is_held_to_its_parameter(
    st: InfererV,
    env: &InferCx,
    params: List<Ty>,
    node: NodeId,
    ty: Ty,
    slots: List<Option<NodeId>>,
    tys: List<Option<Ty>>,
    fuel: u64,
)
    requires
        fuel > 0,
    ensures
        ({
            let less = (fuel - 1) as u64;
            let all = expect_slots_spec(
                st,
                env,
                &params,
                &List::Cons(Some(node), Box::new(slots)),
                &List::Cons(Some(ty), Box::new(tys)),
                fuel,
            );
            match params {
                List::Cons(p, ps) => all == expect_slots_spec(
                    expect_spec(st, env, node, &ty, &p, less),
                    env,
                    &*ps,
                    &slots,
                    &tys,
                    fuel,
                ),
                List::Nil => all == expect_slots_spec(
                    crate::calls::check_vararg_arg_spec(st, env, node, &ty, less),
                    env,
                    &List::Nil,
                    &slots,
                    &tys,
                    fuel,
                ),
            }
        }),
{
}

/// Whether every argument fits the parameter at its position.
pub open spec fn arguments_fit(params: List<Ty>, slots: List<Option<NodeId>>, tys: List<Option<Ty>>, fuel: u64) -> bool
    decreases slots,
{
    match (params, slots, tys) {
        (List::Cons(p, ps), List::Cons(s, ss), List::Cons(t, ts)) => {
            &&& match (s, t) {
                (Some(_), Some(a)) => {
                    &&& settled(&a)
                    &&& settled(&p)
                    &&& lengths_fit(a)
                    &&& lengths_fit(p)
                    &&& reach(a) + 1 < fuel
                    &&& fits(a, p)
                    &&& p != Ty::Never
                },
                _ => true,
            }
            &&& arguments_fit(*ps, *ss, *ts, fuel)
        },
        (List::Nil, List::Nil, List::Nil) => true,
        _ => false,
    }
}

/// A call whose arguments all fit is accepted as it is: nothing is said, and nothing
/// is solved.
pub proof fn fitting_arguments_are_accepted(
    st: InfererV,
    env: &InferCx,
    params: List<Ty>,
    slots: List<Option<NodeId>>,
    tys: List<Option<Ty>>,
    fuel: u64,
)
    requires
        fuel > 0,
        arguments_fit(params, slots, tys, fuel),
    ensures
        expect_slots_spec(st, env, &params, &slots, &tys, fuel) == st,
    decreases slots,
{
    match (params, slots, tys) {
        (List::Cons(p, ps), List::Cons(s, ss), List::Cons(t, ts)) => {
            match (s, t) {
                (Some(n), Some(a)) => a_fitting_value_is_accepted(st, env, n, a, p, (fuel - 1) as u64),
                _ => {},
            }
            fitting_arguments_are_accepted(st, env, *ps, *ss, *ts, fuel);
        },
        _ => {},
    }
}

/// A call of a function yields what its signature says, whatever its arguments. A call
/// with the wrong number of them is complained about once, and none is held to a
/// parameter it was not matched to; a variadic one may have more.
pub proof fn a_call_yields_what_its_signature_says(
    st: InfererV,
    env: &InferCx,
    callee: NodeId,
    params: List<Ty>,
    ret: Ty,
    c: bool,
    slots: List<Option<NodeId>>,
    variadic: bool,
    fuel: u64,
)
    requires
        fuel > 0,
    ensures
        ({
            let sig = Ty::Func { params: Box::new(params), ret: Box::new(ret), c: c };
            let less = (fuel - 1) as u64;
            let (mid, tys) = infer_slots_spec(st, env, &slots, &params, 0, less);
            let (after, ty) = apply_call_with_spec(st, env, callee, &sig, &slots, variadic, fuel);
            let given = crate::list::list_len_spec(&tys);
            let total = crate::list::list_len_spec(&params);
            &&& ty == ret
            &&& if (variadic && given >= total) || given == total {
                after == expect_slots_spec(mid, env, &params, &slots, &tys, less)
            } else {
                &&& after.diags.len() == mid.diags.len() + 1
                &&& after == (InfererV { diags: after.diags, ..mid })
            }
        }),
{
    reveal_with_fuel(crate::unify::shallow_spec, 2);
}

/// A name that resolved to a function is called directly; one that resolved to an
/// overload set is called as the member that was chosen; anything else through its
/// value.
pub proof fn a_named_call_calls_what_the_name_says(
    st: InfererV,
    env: &InferCx,
    callee: NodeId,
    args: List<NodeId>,
    targs: List<NodeId>,
    named: DefId,
    fuel: u64,
)
    requires
        fuel > 0,
        crate::decls::resolved_def_spec(st, env, callee) == Some(named),
    ensures
        ({
            let less = (fuel - 1) as u64;
            let r = crate::calls::infer_named_call_spec(st, env, callee, &args, &targs, fuel);
            match crate::def::def_kind_spec(env.tables, named) {
                DefKind::Func => r == crate::calls::infer_func_call_spec(st, env, callee, named, &args, &targs, less),
                DefKind::Overload => {
                    let (mid, chosen) = crate::calls::select_overload_spec(st, env, callee, named, &args, less);
                    match chosen {
                        Some(d) => crate::def::def_kind_spec(env.tables, d) == DefKind::Func ==> r
                            == crate::calls::infer_func_call_spec(mid, env, callee, d, &args, &targs, less),
                        None => r.1 == Ty::Error,
                    }
                },
                _ => r == crate::calls::infer_value_call_spec(st, env, callee, &args, less),
            }
        }),
{
}

/// A callee that names a struct or an enum constructs it: the call is of that type, and
/// so is the callee.
pub proof fn a_callee_that_names_a_type_constructs_it(
    st: InfererV,
    env: &InferCx,
    callee: NodeId,
    args: List<NodeId>,
    def: DefId,
    fuel: u64,
)
    requires
        fuel > 0,
        match crate::def::kind_of_spec(env.tables, st.file, callee) {
            Some(NodeKind::Path { .. }) => true,
            _ => false,
        },
        crate::decls::resolved_def_spec(st, env, callee) == Some(def),
        crate::def::def_kind_spec(env.tables, def) == DefKind::Struct
            || crate::def::def_kind_spec(env.tables, def) == DefKind::Enum,
    ensures
        ({
            let (mid, own) = crate::types::nominal_of_spec(st, env, def);
            let (after, ty) = crate::calls::infer_call_spec(st, env, callee, &args, fuel);
            &&& ty == own
            &&& crate::unify::get_type_spec(after, callee) == Some(own)
        }),
{
}

/// The signature a use of a function has is the one it is declared with, its parameters
/// replaced by what the use binds them to.
pub proof fn a_use_has_its_signature_instantiated(
    st: InfererV,
    env: &InferCx,
    at: NodeId,
    sig: Ty,
    def: DefId,
    targs: List<NodeId>,
    seed: Subst,
    fuel: u64,
)
    requires
        fuel > 0,
    ensures
        ({
            let (inst, map) = crate::calls::instantiate_parts_spec(st, env, at, &sig, def, &targs, seed, fuel).1;
            inst == crate::subst::subst_ty_spec(&sig, &map)
        }),
{
}

} // verus!
