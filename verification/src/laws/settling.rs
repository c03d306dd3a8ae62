//! Laws of settling: how what is still open is answered, what a body is held to, and
//! what an impl owes its trait.

use vstd::prelude::*;

use crate::ast::NodeKind;
use crate::coerce::expect_spec;
use crate::def::{DefKind, ImplInfo};
use crate::exprs::infer_expr_spec;
use crate::facts::BuiltinOp;
use crate::ids::{DefId, NodeId};
use crate::laws::typing::written;
use crate::list::{List, DEPTH_LIMIT};
use crate::solve::{Choice, Outcome, Select};
use crate::subst::Subst;
use crate::symbol::Symbol;
use crate::ty::{Const, Ty};
use crate::unify::{unify_spec, InferCx, InfererV, Obligation};

verus! {

/// Whether a state is another with one more complaint and nothing else changed.
pub open spec fn complains_once(before: InfererV, after: InfererV) -> bool {
    &&& after.diags.len() == before.diags.len() + 1
    &&& after == (InfererV { diags: after.diags, ..before })
}

// The machine's own operations.

/// The machine works on every integer with every operation, and on a float with
/// arithmetic alone; on nothing else that is known.
pub proof fn the_machine_works_on_numbers(st: InfererV, op: BuiltinOp, ty: Ty)
    requires
        match ty {
            Ty::Var(_) => false,
            _ => true,
        },
    ensures
        crate::solve::builtin_matches_spec(st, op, &ty) == match ty {
            Ty::Int { .. } => true,
            Ty::Float(_) => match op {
                BuiltinOp::Add | BuiltinOp::Sub | BuiltinOp::Mul | BuiltinOp::Div | BuiltinOp::Rem
                | BuiltinOp::Neg => true,
                _ => false,
            },
            _ => false,
        },
{
    reveal_with_fuel(crate::unify::shallow_spec, 2);
}

/// The method a machine operation is called by has the tag its trait has.
pub proof fn an_operation_is_called_by_its_tag(op: BuiltinOp)
    ensures
        crate::solve::builtin_method_spec(op) == crate::symbol::sym_spec(
            match op {
                BuiltinOp::Add => "add",
                BuiltinOp::Sub => "sub",
                BuiltinOp::Mul => "mul",
                BuiltinOp::Div => "div",
                BuiltinOp::Rem => "rem",
                BuiltinOp::BitAnd => "bitand",
                BuiltinOp::BitOr => "bitor",
                BuiltinOp::BitXor => "bitxor",
                BuiltinOp::Shl => "shl",
                BuiltinOp::Shr => "shr",
                BuiltinOp::Neg => "neg",
                BuiltinOp::BitNot => "bitnot",
                BuiltinOp::Not => "not",
                BuiltinOp::Index => "index",
            },
        ),
{
}

// Obligations.

/// An obligation stays exactly where it could not be decided, in the order there was;
/// and a sweep says whether it decided any.
pub proof fn only_what_is_decided_leaves(
    st: InfererV,
    env: &InferCx,
    ob: Obligation,
    rest: List<Obligation>,
    fuel: u64,
)
    requires
        fuel > 0,
    ensures
        ({
            let (a, outcome) = crate::solve::try_solve_spec(st, env, &ob, (fuel - 1) as u64);
            let (b, r) = crate::solve::try_each_spec(a, env, rest, fuel);
            crate::solve::try_each_spec(st, env, List::Cons(ob, Box::new(rest)), fuel) == (
                b,
                if outcome == Outcome::Deferred {
                    (List::Cons(ob, Box::new(r.0)), r.1)
                } else {
                    (r.0, true)
                },
            )
        }),
        crate::solve::try_each_spec(st, env, List::Nil, fuel) == (st, (List::<Obligation>::Nil, false)),
{
}

/// What is put back stands behind what was there, in order.
pub proof fn what_is_put_back_is_kept(st: InfererV, l: List<Obligation>)
    ensures
        ({
            let after = crate::solve::register_all_spec(st, l);
            &&& after == (InfererV { obligations: after.obligations, ..st })
            &&& after.obligations@ =~= st.obligations@ + l@
        }),
    decreases l,
{
    match l {
        List::Nil => {},
        List::Cons(h, t) => {
            crate::laws::typing::an_obligation_comes_last(st, h);
            what_is_put_back_is_kept(crate::unify::register_spec(st, h), *t);
            assert(l@ =~= seq![h] + t@);
        },
    }
}

/// A literal, a field read and a comparison wait for the type they are of, and are
/// held to it as soon as it is known.
pub proof fn what_waits_for_its_type_is_held_to_it(
    st: InfererV,
    env: &InferCx,
    ob: Obligation,
    fuel: u64,
)
    requires
        fuel > 1,
        match ob {
            Obligation::CompositeBody { .. } => true,
            Obligation::Comparison { .. } => true,
            _ => false,
        },
    ensures
        ({
            let less = (fuel - 1) as u64;
            let r = crate::solve::try_solve_spec(st, env, &ob, fuel);
            match ob {
                Obligation::CompositeBody { recv, origin } => {
                    let target = crate::unify::shallow_spec(st, &recv, DEPTH_LIMIT);
                    match target {
                        Ty::Var(_) => r == (st, Outcome::Deferred),
                        _ => r == (
                            crate::solve::check_composite_body_spec(st, env, origin, &target, less),
                            Outcome::Solved,
                        ),
                    }
                },
                Obligation::Comparison { self_ty, op, origin } => match crate::unify::shallow_spec(
                    st,
                    &self_ty,
                    DEPTH_LIMIT,
                ) {
                    Ty::Var(_) => r == (st, Outcome::Deferred),
                    _ => r == (
                        crate::exprs::check_order_bound_spec(st, env, origin, op, &self_ty),
                        Outcome::Solved,
                    ),
                },
                _ => true,
            }
        }),
{
    let less = (fuel - 1) as u64;
    assert(crate::solve::try_solve_func_spec(st, env, &ob, less) == (st, None::<Outcome>));
}

/// A field read that waited is of the field's type: what was promised is held to it.
/// One whose base is still open goes on waiting.
pub proof fn a_field_read_that_waited_has_its_fields_type(
    st: InfererV,
    env: &InferCx,
    recv: Ty,
    name: Symbol,
    out: Ty,
    origin: NodeId,
    fuel: u64,
)
    requires
        fuel > 0,
    ensures
        ({
            let less = (fuel - 1) as u64;
            let target = crate::unify::shallow_spec(st, &recv, DEPTH_LIMIT);
            let r = crate::solve::solve_field_spec(st, env, &recv, &name, &out, origin, fuel);
            let (a, found) = crate::types::field_ty_at_spec(st, env, Some(origin), &target, &name, less);
            match target {
                Ty::Var(_) => r == (st, Outcome::Deferred),
                _ => match (
                    crate::unify::autoderef_spec(st, &target, DEPTH_LIMIT),
                    crate::subst::position_of_spec(&name),
                ) {
                    (Ty::Tuple(elems), Some(i)) => i < elems@.len() ==> r == (
                        expect_spec(st, env, origin, &elems@[i as int], &out, less),
                        Outcome::Solved,
                    ),
                    (Ty::Tuple(_), None) => true,
                    _ => match found {
                        Some(t) => r == (expect_spec(a, env, origin, &t, &out, less), Outcome::Solved),
                        None => r.1 == Outcome::Solved,
                    },
                },
            }
        }),
{
    let target = crate::unify::shallow_spec(st, &recv, DEPTH_LIMIT);
    match (
        crate::unify::autoderef_spec(st, &target, DEPTH_LIMIT),
        crate::subst::position_of_spec(&name),
    ) {
        (Ty::Tuple(elems), Some(i)) => crate::laws::fields::what_stands_at_a_position(*elems, i),
        _ => {},
    }
}

/// An operator has the output of the impl that was selected for it: of the machine's
/// own the operand's type, and of a written one what it binds. What was promised is
/// held to it.
pub proof fn an_operator_has_the_output_of_its_impl(
    st: InfererV,
    env: &InferCx,
    self_ty: Ty,
    trait_def: DefId,
    args: List<Ty>,
    assoc: Symbol,
    out: Ty,
    origin: NodeId,
    fuel: u64,
)
    requires
        fuel > 0,
    ensures
        ({
            let less = (fuel - 1) as u64;
            let (a, s) = crate::solve::select_spec(st, env, &self_ty, trait_def, &args, less);
            let r = crate::solve::solve_projection_spec(
                st,
                env,
                &self_ty,
                trait_def,
                &args,
                &assoc,
                &out,
                origin,
                &None,
                fuel,
            );
            match s {
                Select::Found(Choice::Builtin(_)) => r == (
                    expect_spec(
                        a,
                        env,
                        origin,
                        &crate::unify::shallow_spec(a, &self_ty, DEPTH_LIMIT),
                        &out,
                        less,
                    ),
                    Outcome::Solved,
                ),
                Select::Found(Choice::User(i)) => {
                    let (b, map) = crate::solve::commit_impl_spec(a, env, i, &self_ty, &args, origin, less);
                    let (c, t) = crate::solve::user_assoc_spec(b, env, i, origin, &assoc, &map, less);
                    r == (expect_spec(c, env, origin, &t, &out, less), Outcome::Solved)
                },
                Select::Defer => r == (a, Outcome::Deferred),
                Select::Error => r == (unify_spec(a, &out, &Ty::Error, less).0, Outcome::Solved),
                Select::NoImpl => r.1 == Outcome::Failed,
                Select::Ambiguous => r.1 == Outcome::Failed,
                Select::ByBound => true,
            }
        }),
{
}

/// What a selected impl binds an associated type to is what it wrote, its own
/// parameters replaced by what they were bound to.
pub proof fn an_impls_output_is_instantiated(
    st: InfererV,
    env: &InferCx,
    i: u64,
    origin: NodeId,
    assoc: Symbol,
    map: Subst,
    imp: ImplInfo,
    fuel: u64,
)
    requires
        fuel > 0,
        crate::solve::get_impl_spec(env, i) == Some(&imp),
    ensures
        ({
            let (a, bound) = crate::solve::impl_assoc_spec(st, env, &imp, &assoc, (fuel - 1) as u64);
            let (after, t) = crate::solve::user_assoc_spec(st, env, i, origin, &assoc, &map, fuel);
            match bound {
                Some(b) => after == a && t == crate::subst::subst_ty_spec(&b, &map),
                None => complains_once(a, after) && t == Ty::Error,
            }
        }),
{
}

/// An operator is recorded with the method its impl supplies: of the machine's own
/// with the operation too, of a written one without.
pub proof fn a_selected_operator_is_recorded(
    st: InfererV,
    env: &InferCx,
    origin: NodeId,
    choice: Choice,
    trait_def: DefId,
    name: Symbol,
    method: DefId,
)
    requires
        match choice {
            Choice::Builtin(op) => crate::def::member_of_spec(
                env.tables,
                trait_def,
                &crate::solve::builtin_method_spec(op),
            ) == Some(method),
            Choice::User(i) => match crate::solve::get_impl_spec(env, i) {
                Some(imp) => crate::def::find_member_spec(&imp.members, &name) == Some(method),
                None => false,
            },
        },
    ensures
        ({
            let after = crate::solve::stamp_op_spec(st, env, origin, choice, trait_def, &name);
            let key = crate::ids::node_key_spec(st.file, origin);
            let kept = after.facts.op_resolution[key];
            &&& after.facts.op_resolution.dom().contains(key)
            &&& kept.method == method
            &&& kept.trait_def == trait_def
            &&& kept.builtin == match choice {
                Choice::Builtin(op) => Some(op),
                Choice::User(_) => None,
            }
        }),
{
}

/// Each operand of an operator is held to the parameter at its position, in order.
pub proof fn operands_are_held_to_their_parameters(
    st: InfererV,
    env: &InferCx,
    origin: NodeId,
    p: Ty,
    ps: List<Ty>,
    a: Ty,
    rest: List<Ty>,
    fuel: u64,
)
    requires
        fuel > 0,
    ensures
        crate::solve::expect_args_at_spec(
            st,
            env,
            origin,
            &List::Cons(p, Box::new(ps)),
            &List::Cons(a, Box::new(rest)),
            fuel,
        ) == crate::solve::expect_args_at_spec(
            expect_spec(st, env, origin, &a, &p, (fuel - 1) as u64),
            env,
            origin,
            &ps,
            &rest,
            fuel,
        ),
{
}

/// Committing to an impl makes each of its own parameters a variable of its own, and
/// makes the type asked about agree with the one it is written for.
pub proof fn committing_makes_the_impl_agree(
    st: InfererV,
    env: &InferCx,
    i: u64,
    imp: ImplInfo,
    self_ty: Ty,
    args: List<Ty>,
    origin: NodeId,
    fuel: u64,
)
    requires
        fuel > 0,
        crate::solve::get_impl_spec(env, i) == Some(&imp),
    ensures
        ({
            let less = (fuel - 1) as u64;
            let nothing = Subst { tys: List::Nil, consts: List::Nil };
            let (a, map) = crate::solve::fresh_impl_map_spec(st, env, &imp.generics, nothing);
            let (b, impl_self) = crate::solve::impl_self_ty_spec(a, env, &imp, &map, less);
            let c = unify_spec(b, &self_ty, &impl_self, less).0;
            let (d, trait_args) = crate::solve::impl_trait_args_spec(c, env, &imp, less);
            let e = if trait_args@.len() > 0 && crate::list::list_len_spec(&trait_args)
                == crate::list::list_len_spec(&args) {
                crate::solve::unify_all_args_spec(d, &trait_args, &args, &map, less)
            } else {
                d
            };
            crate::solve::commit_impl_spec(st, env, i, &self_ty, &args, origin, fuel)
                == crate::solve::register_impl_bounds_spec(e, env, origin, &imp.generics, map, less)
        }),
{
    reveal_with_fuel(crate::list::list_seq, 2);
}

/// Each trait argument of a committed impl is made to agree with the one asked about
/// at its position.
pub proof fn committed_arguments_agree_by_position(
    st: InfererV,
    t: Ty,
    ts: List<Ty>,
    a: Ty,
    rest: List<Ty>,
    map: Subst,
    fuel: u64,
)
    requires
        fuel > 0,
    ensures
        crate::solve::unify_all_args_spec(
            st,
            &List::Cons(t, Box::new(ts)),
            &List::Cons(a, Box::new(rest)),
            &map,
            fuel,
        ) == crate::solve::unify_all_args_spec(
            unify_spec(st, &crate::subst::subst_ty_spec(&t, &map), &a, (fuel - 1) as u64).0,
            &ts,
            &rest,
            &map,
            fuel,
        ),
{
}

// Literals.

/// Each argument of a variant is held to what the payload declares under its name, or
/// at its position where it has none, and none is left out.
pub proof fn a_variants_arguments_are_held_to_its_payload(
    st: InfererV,
    env: &InferCx,
    arg: (Option<Symbol>, Ty),
    rest: List<(Option<Symbol>, Ty)>,
    i: u64,
    payload: List<(Option<Symbol>, Ty)>,
    variant: Symbol,
    origin: NodeId,
    fuel: u64,
)
    requires
        fuel > 0,
    ensures
        ({
            let less = (fuel - 1) as u64;
            let next = crate::list::succ_spec(i);
            let all = crate::solve::check_payload_spec(
                st,
                env,
                &List::Cons(arg, Box::new(rest)),
                i,
                &payload,
                &variant,
                origin,
                fuel,
            );
            let want = match arg.0 {
                Some(n) => crate::solve::payload_named_spec(&payload, &n),
                None => if i < payload@.len() {
                    Some(payload@[i as int].1)
                } else {
                    None
                },
            };
            match want {
                Some(t) => all == crate::solve::check_payload_spec(
                    expect_spec(st, env, origin, &arg.1, &t, less),
                    env,
                    &rest,
                    next,
                    &payload,
                    &variant,
                    origin,
                    fuel,
                ),
                None => arg.0 is None ==> all == crate::solve::check_payload_spec(
                    st,
                    env,
                    &rest,
                    next,
                    &payload,
                    &variant,
                    origin,
                    fuel,
                ),
            }
        }),
{
    crate::laws::fields::what_stands_at_a_position(payload, i);
}

/// An argument that names no field of the payload is complained about once.
pub proof fn a_variants_arguments_name_its_fields(
    st: InfererV,
    env: &InferCx,
    name: Symbol,
    ty: Ty,
    i: u64,
    payload: List<(Option<Symbol>, Ty)>,
    variant: Symbol,
    origin: NodeId,
    fuel: u64,
)
    requires
        fuel > 0,
        crate::solve::payload_named_spec(&payload, &name) is None,
    ensures
        complains_once(
            st,
            crate::solve::check_payload_spec(
                st,
                env,
                &List::Cons((Some(name), ty), Box::new(List::Nil)),
                i,
                &payload,
                &variant,
                origin,
                fuel,
            ),
        ),
{
    reveal_with_fuel(crate::solve::check_payload_spec, 2);
}

/// A variant literal waits for its enum, and what an error stands for says nothing;
/// an enum without the variant, and what is no enum at all, is complained about once.
pub proof fn a_variant_is_of_its_enum(
    st: InfererV,
    env: &InferCx,
    recv: Ty,
    variant: Symbol,
    args: List<(Option<Symbol>, Ty)>,
    origin: NodeId,
    fuel: u64,
)
    requires
        fuel > 0,
    ensures
        ({
            let less = (fuel - 1) as u64;
            let base = crate::unify::shallow_spec(st, &recv, DEPTH_LIMIT);
            let (a, payload) = crate::types::variant_payload_spec(st, env, &base, &variant, less);
            let (after, r) = crate::solve::solve_variant_spec(st, env, &recv, &variant, &args, origin, fuel);
            match base {
                Ty::Var(_) => after == st && r == Outcome::Deferred,
                Ty::Error => after == st && r == Outcome::Solved,
                Ty::Nominal { .. } => r == Outcome::Solved && match payload {
                    Some(p) => crate::list::list_len_spec(&p) == crate::list::list_len_spec(&args) ==> after
                        == crate::solve::check_payload_spec(a, env, &args, 0, &p, &variant, origin, less),
                    None => complains_once(a, after),
                },
                _ => r == Outcome::Solved && complains_once(st, after),
            }
        }),
{
}

/// Elements of a literal are held to the members at their positions, in order, up to
/// as many as there are to be.
pub proof fn elements_are_held_to_their_members(
    st: InfererV,
    env: &InferCx,
    e: NodeId,
    es: List<NodeId>,
    m: Ty,
    ms: List<Ty>,
    need: u64,
    ty: Ty,
    fuel: u64,
)
    requires
        fuel > 1,
        crate::unify::get_type_spec(st, e) == Some(ty),
    ensures
        ({
            let all = crate::solve::expect_members_spec(
                st,
                env,
                &List::Cons(e, Box::new(es)),
                &List::Cons(m, Box::new(ms)),
                need,
                fuel,
            );
            if need == 0 {
                all == st
            } else {
                all == crate::solve::expect_members_spec(
                    expect_spec(st, env, e, &ty, &m, (fuel - 1) as u64),
                    env,
                    &es,
                    &ms,
                    (need - 1) as u64,
                    fuel,
                )
            }
        }),
{
    assert(crate::solve::node_ty_spec(st, env, e, (fuel - 1) as u64) == (st, ty));
}

proof fn as_many_times_over(ty: Ty, l: List<NodeId>)
    ensures
        crate::solve::repeated_spec(&ty, &l)@.len() == l@.len(),
        forall|i: int| 0 <= i < l@.len() ==> crate::solve::repeated_spec(&ty, &l)@[i] == ty,
    decreases l,
{
    match l {
        List::Nil => {},
        List::Cons(h, t) => {
            as_many_times_over(ty, *t);
            assert(l@ =~= seq![h] + t@);
            let rest = crate::solve::repeated_spec(&ty, &*t);
            assert(crate::solve::repeated_spec(&ty, &l)@ =~= seq![ty] + rest@);
        },
    }
}

/// A literal of elements has as many members as a tuple has, each of its own type; as
/// an array has, all of one; and of a slice as many as are written.
pub proof fn a_positional_literal_has_the_members_of_its_type(
    st: InfererV,
    env: &InferCx,
    node: NodeId,
    target: Ty,
    elems: List<NodeId>,
    fuel: u64,
)
    requires
        fuel > 0,
    ensures
        ({
            let (after, r) = crate::solve::positional_members_spec(st, env, node, &target, &elems, fuel);
            match crate::unify::autoderef_spec(st, &target, DEPTH_LIMIT) {
                Ty::Tuple(ts) => after == st && r == Some((crate::list::list_len_spec(&*ts), *ts)),
                Ty::Slice { mutable: _, inner } => after == st && match r {
                    Some((need, tys)) => {
                        &&& need == crate::list::list_len_spec(&elems)
                        &&& tys@.len() == elems@.len()
                        &&& forall|i: int| 0 <= i < elems@.len() ==> tys@[i] == *inner
                    },
                    None => false,
                },
                Ty::Array { len, mutable: _, inner } => match r {
                    Some((need, tys)) => {
                        &&& tys@.len() == elems@.len()
                        &&& forall|i: int| 0 <= i < elems@.len() ==> tys@[i] == *inner
                        &&& match crate::ty::const_value_spec(
                            &crate::unify::shallow_const_spec(st, &len, DEPTH_LIMIT),
                        ) {
                            Some(n) => after == st && need == n,
                            None => need == crate::list::list_len_spec(&elems),
                        }
                    },
                    None => false,
                },
                Ty::Nominal { .. } => true,
                _ => after == st && r is None,
            }
        }),
{
    match crate::unify::autoderef_spec(st, &target, DEPTH_LIMIT) {
        Ty::Slice { mutable: _, inner } => as_many_times_over(*inner, elems),
        Ty::Array { len: _, mutable: _, inner } => as_many_times_over(*inner, elems),
        _ => {},
    }
}

// Bodies.

/// A parameter has the type written for it, which its default is held to: its name and
/// its node both get it.
pub proof fn a_parameter_gets_its_type(
    st: InfererV,
    env: &InferCx,
    p: NodeId,
    rest: List<NodeId>,
    all: List<DefId>,
    name: Symbol,
    ty: NodeId,
    fuel: u64,
)
    requires
        fuel > 1,
        written(st, env, p) == Some(NodeKind::Param { name: name, ty: Some(ty), default: None }),
    ensures
        ({
            let (a, pty) = crate::types::ty_from_node_spec(st, env, ty, (fuel - 1) as u64);
            let after = crate::bodies::infer_params_spec(
                st,
                env,
                &List::Cons(p, Box::new(rest)),
                &all,
                None,
                fuel,
            );
            exists|named: InfererV|
                crate::laws::matching::gives(a, named, p, pty) && after
                    == #[trigger] crate::bodies::infer_params_spec(
                    crate::unify::set_type_spec(named, p, pty),
                    env,
                    &rest,
                    &all,
                    None,
                    fuel,
                )
        }),
{
    let (a, pty) = crate::types::ty_from_node_spec(st, env, ty, (fuel - 1) as u64);
    let named = crate::coerce::bind_name_spec(a, p, &pty);
    assert(crate::laws::matching::gives(a, named, p, pty));
    assert(crate::bodies::infer_params_spec(st, env, &List::Cons(p, Box::new(rest)), &all, None, fuel)
        == crate::bodies::infer_params_spec(
        crate::unify::set_type_spec(named, p, pty),
        env,
        &rest,
        &all,
        None,
        fuel,
    ));
}

/// A default argument is typed as one, and is held to its parameter's type.
pub proof fn a_default_is_held_to_its_parameter(
    st: InfererV,
    env: &InferCx,
    d: NodeId,
    params: List<DefId>,
    want: Ty,
    fuel: u64,
)
    requires
        fuel > 1,
    ensures
        ({
            let less = (fuel - 1) as u64;
            let a = crate::bodies::reject_param_refs_in_default_spec(
                st,
                env,
                List::Cons(d, Box::new(List::Nil)),
                &params,
                less,
            );
            let (b, got) = infer_expr_spec(InfererV { in_default: true, ..a }, env, d, less);
            crate::bodies::infer_default_spec(st, env, d, &params, &want, fuel) == expect_spec(
                InfererV { in_default: a.in_default, ..b },
                env,
                d,
                &got,
                &want,
                less,
            )
        }),
{
}

/// A number that the type it settled on cannot hold is complained about, and one that
/// it can is not.
pub proof fn a_number_fits_its_type(st: InfererV, env: &InferCx, node: NodeId, resolved: Ty)
    ensures
        ({
            let after = crate::bodies::check_int_range_spec(st, env, node, &resolved);
            match (
                crate::unify::get_int_spec(st, node),
                crate::subst::int_parts_spec(&crate::unify::numeric_repr_spec(st, &resolved)),
            ) {
                (Some(n), Some((signed, bits))) => if crate::bigint::int_fits_spec(&n, signed, bits) {
                    after == st
                } else {
                    after.diags.len() == st.diags.len() + 1
                },
                _ => after == st,
            }
        }),
{
}

/// What is recorded of a conversion, a method call, an unsizing and an upcast is the
/// same once its types are settled, but for those types.
pub proof fn settling_changes_only_types(st: InfererV, node: NodeId)
    ensures
        ({
            let key = crate::ids::node_key_spec(st.file, node);
            let up = crate::bodies::finalize_upcast_spec(st, node);
            let called = crate::bodies::finalize_method_spec(st, node);
            let erased = crate::bodies::finalize_dyn_spec(st, node);
            &&& crate::unify::get_upcast_spec(st, st.file, node) matches Some(u) ==> {
                let kept = up.facts.upcast[crate::ids::node_key_spec(up.file, node)];
                kept.field == u.field && kept.through_ptr == u.through_ptr
            }
            &&& crate::unify::get_method_res_spec(st, st.file, node) matches Some(m) ==> {
                let kept = called.facts.method_res[crate::ids::node_key_spec(called.file, node)];
                &&& kept.method == m.method
                &&& kept.adjust == m.adjust
                &&& match (m.dispatch, kept.dispatch) {
                    (
                        crate::facts::MethodDispatch::Static,
                        crate::facts::MethodDispatch::Static,
                    ) => true,
                    (
                        crate::facts::MethodDispatch::Virtual(a),
                        crate::facts::MethodDispatch::Virtual(b),
                    ) => a == b,
                    (
                        crate::facts::MethodDispatch::Generic { trait_def: a, args: _ },
                        crate::facts::MethodDispatch::Generic { trait_def: b, args: _ },
                    ) => a == b,
                    _ => false,
                }
            }
            &&& crate::unify::get_dyn_coerce_spec(st, st.file, node) matches Some(d) ==> {
                let kept = erased.facts.dyn_coerce[crate::ids::node_key_spec(erased.file, node)];
                kept.trait_def == d.trait_def
            }
        }),
{
}

// Impls against their traits.

/// A member an impl supplies is complained about exactly where its type does not agree
/// with the one its trait declared, both instantiated for the impl, and a constant's
/// parameters are never renamed.
pub proof fn a_supplied_constant_has_the_declared_type(
    st: InfererV,
    env: &InferCx,
    imp: ImplInfo,
    trait_def: DefId,
    name: Symbol,
    required: DefId,
    supplied: DefId,
    map: Subst,
    at: NodeId,
)
    requires
        crate::def::def_kind_spec(env.tables, required) != DefKind::Func,
        crate::def::def_node_spec(env.tables, supplied) == Some(at),
    ensures
        ({
            let (a, want) = crate::members::member_sig_spec(st, env, required);
            let after = crate::members::check_member_spec(
                st,
                env,
                &imp,
                trait_def,
                &name,
                required,
                supplied,
                &map,
            );
            match want {
                None => after == a,
                Some(w) => {
                    let (b, got) = crate::members::member_sig_spec(a, env, supplied);
                    match got {
                        None => after == b,
                        Some(g) => {
                            let (c, same) = crate::members::agree_spec(
                                b,
                                &crate::subst::subst_ty_spec(&w, &map),
                                &crate::subst::subst_ty_spec(&g, &map),
                            );
                            if same {
                                after == c
                            } else {
                                complains_once(c, after)
                            }
                        },
                    }
                },
            }
        }),
{
}

/// A supplied method is complained about exactly where its signature does not agree
/// with the declared one, both instantiated for the impl, with the method's own
/// parameters named as the declared one names them.
pub proof fn a_supplied_method_has_the_declared_signature(
    st: InfererV,
    env: &InferCx,
    imp: ImplInfo,
    trait_def: DefId,
    name: Symbol,
    required: DefId,
    supplied: DefId,
    map: Subst,
    at: NodeId,
)
    requires
        crate::def::def_kind_spec(env.tables, required) == DefKind::Func,
        crate::def::def_kind_spec(env.tables, supplied) == DefKind::Func,
        crate::def::def_node_spec(env.tables, supplied) == Some(at),
    ensures
        ({
            let (a, w) = crate::types::func_def_ty_spec(st, env, required, DEPTH_LIMIT);
            let (b, g) = crate::types::func_def_ty_spec(a, env, supplied, DEPTH_LIMIT);
            let aligned = crate::members::align_generics_spec(
                env.tables,
                &crate::decls::declared_generics_spec(b, env, required),
                &crate::decls::declared_generics_spec(b, env, supplied),
                map,
            );
            let (c, same) = crate::members::agree_spec(
                b,
                &crate::subst::subst_ty_spec(&w, &aligned),
                &crate::subst::subst_ty_spec(&g, &aligned),
            );
            let after = crate::members::check_member_spec(
                st,
                env,
                &imp,
                trait_def,
                &name,
                required,
                supplied,
                &map,
            );
            if same {
                after == c
            } else {
                complains_once(c, after)
            }
        }),
{
}

/// Two types agree exactly where they unify, and asking binds nothing.
pub proof fn agreement_binds_nothing(st: InfererV, a: Ty, b: Ty)
    ensures
        ({
            let (after, same) = crate::members::agree_spec(st, &a, &b);
            &&& same == unify_spec(st, &a, &b, DEPTH_LIMIT).1 is None
            &&& after.bindings == st.bindings
            &&& after.const_bindings == st.const_bindings
            &&& after.obligations == st.obligations
        }),
{
}

/// A supplied method's parameters are named as the declared ones at their positions.
pub proof fn generics_are_aligned_by_position(
    env: &InferCx,
    w: DefId,
    ws: List<DefId>,
    g: DefId,
    gs: List<DefId>,
    map: Subst,
)
    ensures
        ({
            let next = if crate::def::def_kind_spec(env.tables, w) == DefKind::ConstParam {
                Subst {
                    tys: map.tys,
                    consts: List::Cons((g, Const::Param(w)), Box::new(map.consts)),
                }
            } else {
                Subst {
                    tys: List::Cons((g, Ty::Nominal { def: w, args: Box::new(List::Nil) }), Box::new(map.tys)),
                    consts: map.consts,
                }
            };
            crate::members::align_generics_spec(
                env.tables,
                &List::Cons(w, Box::new(ws)),
                &List::Cons(g, Box::new(gs)),
                map,
            ) == crate::members::align_generics_spec(env.tables, &ws, &gs, next)
        }),
{
}

/// Every member of a trait that an impl supplies is held to its declaration, in order,
/// and one it does not supply is passed over.
pub proof fn every_supplied_member_is_checked(
    st: InfererV,
    env: &InferCx,
    h: (Symbol, DefId),
    rest: List<(Symbol, DefId)>,
    imp: ImplInfo,
    trait_def: DefId,
    map: Subst,
)
    ensures
        crate::members::check_members_spec(st, env, &List::Cons(h, Box::new(rest)), &imp, trait_def, &map)
            == crate::members::check_members_spec(
            match crate::def::find_member_spec(&imp.members, &h.0) {
                Some(supplied) => crate::members::check_member_spec(
                    st,
                    env,
                    &imp,
                    trait_def,
                    &h.0,
                    h.1,
                    supplied,
                    &map,
                ),
                None => st,
            },
            env,
            &rest,
            &imp,
            trait_def,
            &map,
        ),
{
}

/// The tag a variant gets is the one written for it, where it carries nothing and one
/// is; else the one the numbering has got to.
pub proof fn a_variant_has_its_own_tag(
    st: InfererV,
    env: &InferCx,
    name: Symbol,
    payload: crate::ast::VariantPayload,
    value: Option<NodeId>,
    next: i128,
)
    ensures
        ({
            let (after, tag) = crate::members::variant_tag_spec(st, env, &name, &payload, value, next);
            match value {
                None => after == st && tag == next,
                Some(v) => match payload {
                    crate::ast::VariantPayload::Unit => {
                        let (a, read) = crate::members::variant_tag_value_spec(st, env, v);
                        after == a && tag == match read {
                            Some(n) => n,
                            None => next,
                        }
                    },
                    _ => tag == next && complains_once(st, after),
                },
            }
        }),
{
}

} // verus!
