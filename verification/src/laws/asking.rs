//! Laws of what a use asks of the solver, and of how its answers are weighed.

use vstd::prelude::*;

use crate::ast::{BinOp, NodeKind};
use crate::calls::OpenedSelf;
use crate::ids::{DefId, NodeId};
use crate::laws::typing::{an_obligation_comes_last, asks};
use crate::list::{List, DEPTH_LIMIT};
use crate::solve::{Best, Select};
use crate::subst::Subst;
use crate::symbol::Symbol;
use crate::ty::Ty;
use crate::unify::{InferCx, InfererV, Obligation};

verus! {

// Answers.

/// The best that was weighed is found; two that are as good are ambiguous, and nothing
/// is no impl, but of a type that is not known yet either may still be decided.
pub proof fn the_best_is_found(best: Option<Best>, unknown: bool)
    ensures
        crate::solve::verdict_spec(best, unknown) == match best {
            Some(b) => if !b.tied {
                Select::Found(b.choice)
            } else if unknown {
                Select::Defer
            } else {
                Select::Ambiguous
            },
            None => if unknown {
                Select::Defer
            } else {
                Select::NoImpl
            },
        },
{
}

/// A bound may hold unless it is known that nothing implements it, or that two impls do.
pub proof fn a_bound_may_hold_unless_nothing_implements_it(
    st: InfererV,
    env: &InferCx,
    ty: Ty,
    t: DefId,
    rest: List<DefId>,
    fuel: u64,
)
    requires
        fuel > 0,
    ensures
        ({
            let (a, s) = crate::solve::select_spec(st, env, &ty, t, &List::Nil, (fuel - 1) as u64);
            let all = crate::solve::bounds_may_hold_spec(st, env, &ty, &List::Cons(t, Box::new(rest)), fuel);
            &&& s == Select::NoImpl ==> all == (a, false)
            &&& s == Select::Ambiguous ==> all == (a, false)
            &&& s is Found ==> all == crate::solve::bounds_may_hold_spec(a, env, &ty, &rest, fuel)
            &&& s == Select::ByBound ==> all == crate::solve::bounds_may_hold_spec(a, env, &ty, &rest, fuel)
            &&& s == Select::Defer ==> all == crate::solve::bounds_may_hold_spec(a, env, &ty, &rest, fuel)
        }),
        crate::solve::bounds_may_hold_spec(st, env, &ty, &List::Nil, fuel) == (st, true),
{
}

/// Solving goes on as long as something is decided, with what could not be put back.
pub proof fn solving_goes_on_while_something_is_decided(st: InfererV, env: &InferCx, fuel: u64)
    requires
        fuel > 0,
    ensures
        ({
            let less = (fuel - 1) as u64;
            let (a, r) = crate::solve::try_each_spec(
                InfererV { obligations: List::Nil, ..st },
                env,
                st.obligations,
                less,
            );
            let b = crate::solve::register_all_spec(a, r.0);
            let after = crate::solve::solve_to_fixpoint_spec(st, env, fuel);
            match st.obligations {
                List::Nil => after == st,
                List::Cons(_, _) => r.1 ==> after == crate::solve::solve_to_fixpoint_spec(b, env, less),
            }
        }),
{
}

// Questions.

/// A function of a trait, called by its own name, is called for some type that is not
/// known yet: the trait stands for it, and each of its associated types for something
/// open.
pub proof fn a_traits_function_is_called_for_an_open_type(
    st: InfererV,
    env: &InferCx,
    method: DefId,
)
    ensures
        match (
            crate::calls::open_trait_self_spec(st, env, method),
            crate::calls::declaring_trait_spec(env.tables, method),
        ) {
            ((_, Some(o)), Some(t)) => o.trait_def == t && o.self_ty == Ty::Var(st.next_var),
            ((after, None), None) => after == st,
            _ => false,
        },
{
}

/// That the type implements the trait, with the arguments the use binds, is asked last,
/// and the method it is asked for is recorded with the answer.
pub proof fn a_traits_function_asks_for_its_trait(
    st: InfererV,
    env: &InferCx,
    callee: NodeId,
    method: DefId,
    opened: OpenedSelf,
    map: Subst,
)
    ensures
        ({
            let generics = crate::decls::declared_generics_spec(st, env, opened.trait_def);
            let args = crate::calls::instantiated_spec(&generics, &map);
            let a = crate::calls::project_assocs_spec(
                st,
                &opened.assocs,
                &opened.self_ty,
                opened.trait_def,
                &args,
                callee,
            );
            asks(
                a,
                crate::calls::settle_trait_self_spec(st, env, callee, method, opened, &map),
                Obligation::Trait {
                    self_ty: opened.self_ty,
                    trait_def: opened.trait_def,
                    args: args,
                    origin: callee,
                    stamp: Some(crate::def::def_name_spec(env.tables, method)),
                },
            )
        }),
{
    let generics = crate::decls::declared_generics_spec(st, env, opened.trait_def);
    let args = crate::calls::instantiated_spec(&generics, &map);
    let a = crate::calls::project_assocs_spec(
        st,
        &opened.assocs,
        &opened.self_ty,
        opened.trait_def,
        &args,
        callee,
    );
    an_obligation_comes_last(
        a,
        Obligation::Trait {
            self_ty: opened.self_ty,
            trait_def: opened.trait_def,
            args: args,
            origin: callee,
            stamp: Some(crate::def::def_name_spec(env.tables, method)),
        },
    );
}

/// Each associated type of the trait is asked of the type it is called for, under its
/// own name, in order.
pub proof fn every_associated_type_is_asked_for(
    st: InfererV,
    name: Symbol,
    out: Ty,
    rest: List<(Symbol, Ty)>,
    self_ty: Ty,
    trait_def: DefId,
    args: List<Ty>,
    origin: NodeId,
)
    ensures
        ({
            let asked = Obligation::Projection {
                self_ty: self_ty,
                trait_def: trait_def,
                args: args,
                assoc: name,
                out: out,
                origin: origin,
                method: None,
            };
            let a = crate::unify::register_spec(st, asked);
            &&& asks(st, a, asked)
            &&& crate::calls::project_assocs_spec(
                st,
                &List::Cons((name, out), Box::new(rest)),
                &self_ty,
                trait_def,
                &args,
                origin,
            ) == crate::calls::project_assocs_spec(a, &rest, &self_ty, trait_def, &args, origin)
        }),
{
    an_obligation_comes_last(
        st,
        Obligation::Projection {
            self_ty: self_ty,
            trait_def: trait_def,
            args: args,
            assoc: name,
            out: out,
            origin: origin,
            method: None,
        },
    );
}

/// What stands for `Self` in a method is what its receiver points at, or the receiver;
/// of a trait object it is the object, but the pointer itself where the method asks for
/// a type of known size.
pub proof fn self_is_what_the_receiver_points_at(
    st: InfererV,
    env: &InferCx,
    method: DefId,
    mutable: bool,
    inner: Ty,
)
    requires
        match inner {
            Ty::Var(_) => false,
            Ty::Ptr { .. } => false,
            _ => true,
        },
    ensures
        ({
            let ptr = Ty::Ptr { mutable: mutable, inner: Box::new(inner) };
            &&& crate::calls::self_head_spec(st, env, method, &inner) == inner
            &&& crate::calls::self_head_spec(st, env, method, &ptr) == match inner {
                Ty::Dyn { .. } => if crate::lower::sized_self_spec(env.tables, method) {
                    ptr
                } else {
                    inner
                },
                _ => inner,
            }
        }),
{
    reveal_with_fuel(crate::unify::shallow_spec, 2);
}

/// Each pinned type of a trait object stands for the trait's associated type of that
/// name, and each type a bound minted for the one it was minted for.
pub proof fn a_pin_stands_for_its_associated_type(
    st: InfererV,
    env: &InferCx,
    trait_def: DefId,
    head: DefId,
    name: Symbol,
    ty: Ty,
    assoc: DefId,
    rest: List<(Symbol, Ty)>,
    others: List<(Symbol, DefId)>,
    tys: List<(DefId, Ty)>,
    fuel: u64,
)
    requires
        fuel > 0,
    ensures
        crate::calls::pinned_assocs_spec(env.tables, trait_def, &List::Cons((name, ty), Box::new(rest)), tys)
            == crate::calls::pinned_assocs_spec(
            env.tables,
            trait_def,
            &rest,
            match crate::def::member_of_spec(env.tables, trait_def, &name) {
                Some(d) => List::Cons((crate::def::resolve_alias_spec(env.tables, d), ty), Box::new(tys)),
                None => tys,
            },
        ),
        crate::def::member_of_spec(env.tables, head, &name) matches Some(bound) ==> {
            let minted = crate::def::resolve_alias_spec(env.tables, bound);
            let (a, t) = crate::types::param_ty_spec(st, env, minted, (fuel - 1) as u64);
            crate::calls::minted_assocs_spec(
                st,
                env,
                &List::Cons((name, assoc), Box::new(others)),
                head,
                tys,
                fuel,
            ) == crate::calls::minted_assocs_spec(
                a,
                env,
                &others,
                head,
                List::Cons((assoc, t), Box::new(tys)),
                fuel,
            )
        },
{
}

/// An argument that is a closure is typed against the parameter it fills, and any other
/// on its own.
pub proof fn only_a_closure_is_typed_against_its_parameter(
    st: InfererV,
    env: &InferCx,
    n: NodeId,
    wanted: Option<Ty>,
    fuel: u64,
)
    requires
        fuel > 1,
    ensures
        ({
            let less = (fuel - 1) as u64;
            let (after, ty) = crate::exprs::infer_arg_spec(st, env, n, wanted, fuel);
            match crate::laws::typing::written(st, env, n) {
                Some(NodeKind::Closure { .. }) => {
                    let (a, t) = crate::exprs::infer_closure_spec(st, env, n, wanted, less);
                    ty == t && crate::unify::get_type_spec(after, n) == Some(t)
                },
                Some(NodeKind::Arg { name: _, value }) => match crate::laws::typing::written(st, env, value) {
                    Some(NodeKind::Closure { .. }) => {
                        let (a, t) = crate::exprs::infer_closure_spec(st, env, value, wanted, less);
                        ty == t && crate::unify::get_type_spec(after, n) == Some(t)
                    },
                    _ => (after, ty) == crate::exprs::infer_expr_spec(st, env, n, less),
                },
                _ => (after, ty) == crate::exprs::infer_expr_spec(st, env, n, less),
            }
        }),
{
}

/// A candidate of an overload set takes as many arguments as it has parameters; a
/// variadic one may be given more, and one with named parameters fewer where the others
/// have defaults.
pub proof fn a_candidate_takes_as_many_as_it_has(
    env: &InferCx,
    c: DefId,
    total: u64,
    args: List<(Option<Symbol>, Ty)>,
)
    ensures
        ({
            let given = crate::list::list_len_spec(&args);
            let r = crate::calls::arity_takes_spec(env.tables, c, total, &args);
            if crate::exprs::is_c_variadic_spec(env.tables, c) {
                r == (given >= total)
            } else {
                &&& r ==> given <= total
                &&& crate::decls::param_names_spec(env.tables, c) is None ==> r == (given == total)
            }
        }),
{
}

/// The arguments of a trait are what its parameters are bound to, in order; one that is
/// not bound stands for itself.
pub proof fn a_traits_arguments_are_what_its_parameters_are_bound_to(l: List<DefId>, map: Subst)
    ensures
        ({
            let args = crate::calls::instantiated_spec(&l, &map);
            &&& args@.len() == l@.len()
            &&& forall|i: int|
                0 <= i < l@.len() ==> args@[i] == match crate::subst::find_ty_spec(&map.tys, #[trigger] l@[i]) {
                    Some(t) => *t,
                    None => Ty::Nominal { def: l@[i], args: Box::new(List::Nil) },
                }
        }),
    decreases l,
{
    match l {
        List::Nil => {},
        List::Cons(h, t) => {
            a_traits_arguments_are_what_its_parameters_are_bound_to(*t, map);
            assert(l@ =~= seq![h] + t@);
            let rest = crate::calls::instantiated_spec(&*t, &map);
            let all = crate::calls::instantiated_spec(&l, &map);
            match all {
                List::Cons(first, _) => assert(all@ =~= seq![first] + rest@),
                List::Nil => {},
            }
        },
    }
}

/// A compared type that names a definition is asked to implement equality for `==` and
/// `!=`, and an order for the others; a number and what is not known yet is not asked.
pub proof fn a_compared_type_is_asked_to_compare(
    st: InfererV,
    env: &InferCx,
    node: NodeId,
    op: BinOp,
    ty: Ty,
    def: DefId,
    args: List<Ty>,
    trait_def: DefId,
)
    requires
        crate::unify::shallow_spec(st, &ty, DEPTH_LIMIT) == (Ty::Nominal { def: def, args: Box::new(args) }),
        !crate::types::is_ptr_sized_spec(env.tables, &Ty::Nominal { def: def, args: Box::new(args) }),
        crate::def::lang_def_spec(
            env.tables,
            if op == BinOp::Eq || op == BinOp::Ne {
                "eq"
            } else {
                "ord"
            },
        ) == Some(trait_def),
    ensures
        asks(
            st,
            crate::exprs::check_order_bound_spec(st, env, node, op, &ty),
            Obligation::Trait {
                self_ty: ty,
                trait_def: trait_def,
                args: List::Nil,
                origin: node,
                stamp: Some(
                    crate::symbol::sym_spec(
                        if op == BinOp::Eq || op == BinOp::Ne {
                            "eq"
                        } else {
                            "cmp"
                        },
                    ),
                ),
            },
        ),
{
    let method = crate::symbol::sym_spec(
        if op == BinOp::Eq || op == BinOp::Ne {
            "eq"
        } else {
            "cmp"
        },
    );
    an_obligation_comes_last(
        st,
        Obligation::Trait {
            self_ty: ty,
            trait_def: trait_def,
            args: List::Nil,
            origin: node,
            stamp: Some(method),
        },
    );
}

/// A number compares on its own: nothing is asked of it.
pub proof fn a_compared_number_is_not_asked(st: InfererV, env: &InferCx, node: NodeId, op: BinOp, ty: Ty)
    requires
        match crate::unify::shallow_spec(st, &ty, DEPTH_LIMIT) {
            Ty::Int { .. } => true,
            Ty::Float(_) => true,
            Ty::Bool => true,
            Ty::Char => true,
            _ => false,
        },
    ensures
        crate::exprs::check_order_bound_spec(st, env, node, op, &ty) == st,
{
}

// Lookups.

/// A member is the first of its name.
pub proof fn a_member_is_the_first_of_its_name(l: List<(Symbol, DefId)>, name: Symbol)
    ensures
        match crate::def::find_member_spec(&l, &name) {
            Some(d) => exists|i: int|
                {
                    &&& 0 <= i < l@.len()
                    &&& (#[trigger] l@[i]).1 == d
                    &&& crate::symbol::sym_eq_spec(&l@[i].0, &name)
                    &&& forall|j: int| 0 <= j < i ==> !crate::symbol::sym_eq_spec(&(#[trigger] l@[j]).0, &name)
                },
            None => forall|j: int|
                0 <= j < l@.len() ==> !crate::symbol::sym_eq_spec(&(#[trigger] l@[j]).0, &name),
        },
    decreases l,
{
    match l {
        List::Nil => {},
        List::Cons(h, t) => {
            assert(l@ =~= seq![h] + t@);
            assert(l@[0] == h);
            if !crate::symbol::sym_eq_spec(&h.0, &name) {
                a_member_is_the_first_of_its_name(*t, name);
                match crate::def::find_member_spec(&*t, &name) {
                    Some(d) => {
                        let i = choose|i: int|
                            {
                                &&& 0 <= i < t@.len()
                                &&& (#[trigger] t@[i]).1 == d
                                &&& crate::symbol::sym_eq_spec(&t@[i].0, &name)
                                &&& forall|j: int|
                                    0 <= j < i ==> !crate::symbol::sym_eq_spec(&(#[trigger] t@[j]).0, &name)
                            };
                        assert(l@[i + 1] == t@[i]);
                        assert forall|j: int| 0 <= j < i + 1 implies !crate::symbol::sym_eq_spec(
                            &(#[trigger] l@[j]).0,
                            &name,
                        ) by {
                            if j > 0 {
                                assert(l@[j] == t@[j - 1]);
                            }
                        }
                    },
                    None => {
                        assert forall|j: int| 0 <= j < l@.len() implies !crate::symbol::sym_eq_spec(
                            &(#[trigger] l@[j]).0,
                            &name,
                        ) by {
                            if j > 0 {
                                assert(l@[j] == t@[j - 1]);
                            }
                        }
                    },
                }
            }
        },
    }
}

/// Pointers are looked through to what they point at, and nothing else is.
pub proof fn pointers_are_looked_through(st: InfererV, mutable: bool, inner: Ty, fuel: u64)
    requires
        fuel > 0,
    ensures
        crate::unify::autoderef_spec(st, &Ty::Ptr { mutable: mutable, inner: Box::new(inner) }, fuel)
            == crate::unify::autoderef_spec(st, &inner, (fuel - 1) as u64),
        match inner {
            Ty::Var(_) => true,
            Ty::Ptr { .. } => true,
            _ => crate::unify::autoderef_spec(st, &inner, fuel) == inner,
        },
{
    reveal_with_fuel(crate::unify::shallow_spec, 2);
    reveal_with_fuel(crate::unify::autoderef_spec, 2);
}

} // verus!
