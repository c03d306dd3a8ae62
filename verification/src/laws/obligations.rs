//! Laws of trait obligations: which impls are candidates, and what comes of there
//! being none, one or several.

use vstd::prelude::*;

use crate::def::{DefKind, ImplInfo, TypedImpl};
use crate::ids::{DefId, NodeId};
use crate::laws::agreement::{all_fit, all_lengths_fit, fits, lengths_fit, reach, settled_types_agree_when_one_fits};
use crate::laws::selection::{first_of_the_best, matched_later, the_most_specific_wins, weighed};
use crate::list::List;
use crate::solve::{
    consider_impls_spec, get_impl_spec, select_spec, trial_impl_spec, unify_trait_args_spec, Best, Choice, Outcome,
    Select,
};
use crate::subst::{subst_ty_spec, subst_tys_spec, Subst};
use crate::symbol::Symbol;
use crate::ty::{Const, Ty};
use crate::unify::{all_settled, settled, InferCx, InfererV};

verus! {

// Impls whose types name none of their own parameters.

/// Whether a length or width is none of some parameters.
pub open spec fn value_apart(c: Const, generics: List<DefId>) -> bool {
    match c {
        Const::Param(d) => !crate::def::def_in_spec(&generics, d),
        _ => true,
    }
}

/// Whether a type names none of some parameters.
pub open spec fn apart(ty: Ty, generics: List<DefId>) -> bool
    decreases ty,
{
    match ty {
        Ty::Nominal { def, args } => !crate::def::def_in_spec(&generics, def) && all_apart(*args, generics),
        Ty::Ptr { mutable: _, inner } => apart(*inner, generics),
        Ty::Slice { mutable: _, inner } => apart(*inner, generics),
        Ty::Array { len, mutable: _, inner } => value_apart(len, generics) && apart(*inner, generics),
        Ty::Int { signed: _, width } => value_apart(width, generics),
        Ty::Tuple(elems) => all_apart(*elems, generics),
        Ty::Func { params, ret, c: _ } => all_apart(*params, generics) && apart(*ret, generics),
        _ => true,
    }
}

/// The same of every type of a list.
pub open spec fn all_apart(l: List<Ty>, generics: List<DefId>) -> bool
    decreases l,
{
    match l {
        List::Nil => true,
        List::Cons(h, t) => apart(h, generics) && all_apart(*t, generics),
    }
}

/// Whether an instantiation binds nothing but some parameters.
pub open spec fn binds_only(map: Subst, generics: List<DefId>) -> bool {
    &&& forall|d: DefId|
        !crate::def::def_in_spec(&generics, d) ==> (#[trigger] crate::subst::find_ty_spec(&map.tys, d)) is None
    &&& forall|d: DefId|
        !crate::def::def_in_spec(&generics, d) ==> (#[trigger] crate::subst::find_const_spec(&map.consts, d)) is None
}

proof fn what_is_apart_stays(ty: Ty, map: Subst, generics: List<DefId>)
    requires
        binds_only(map, generics),
        apart(ty, generics),
    ensures
        subst_ty_spec(&ty, &map) == ty,
    decreases ty,
{
    match ty {
        Ty::Nominal { def: _, args } => all_that_is_apart_stays(*args, map, generics),
        Ty::Ptr { mutable: _, inner } => what_is_apart_stays(*inner, map, generics),
        Ty::Slice { mutable: _, inner } => what_is_apart_stays(*inner, map, generics),
        Ty::Array { len: _, mutable: _, inner } => what_is_apart_stays(*inner, map, generics),
        Ty::Tuple(elems) => all_that_is_apart_stays(*elems, map, generics),
        Ty::Func { params, ret, c: _ } => {
            all_that_is_apart_stays(*params, map, generics);
            what_is_apart_stays(*ret, map, generics);
        },
        _ => {},
    }
}

proof fn all_that_is_apart_stays(l: List<Ty>, map: Subst, generics: List<DefId>)
    requires
        binds_only(map, generics),
        all_apart(l, generics),
    ensures
        subst_tys_spec(&l, &map) == l,
    decreases l,
{
    match l {
        List::Nil => {},
        List::Cons(h, t) => {
            what_is_apart_stays(h, map, generics);
            all_that_is_apart_stays(*t, map, generics);
        },
    }
}

proof fn a_fresh_map_binds_only(st: InfererV, env: &InferCx, rest: List<DefId>, map: Subst, generics: List<DefId>)
    requires
        binds_only(map, generics),
        forall|d: DefId| crate::def::def_in_spec(&rest, d) ==> #[trigger] crate::def::def_in_spec(&generics, d),
    ensures
        binds_only(crate::solve::fresh_impl_map_spec(st, env, &rest, map).1, generics),
    decreases rest,
{
    match rest {
        List::Nil => {},
        List::Cons(g, t) => {
            assert(crate::def::def_in_spec(&rest, g));
            assert(crate::def::def_in_spec(&generics, g));
            assert forall|d: DefId| crate::def::def_in_spec(&*t, d) implies #[trigger] crate::def::def_in_spec(
                &generics,
                d,
            ) by {
                assert(crate::def::def_in_spec(&rest, d));
            }
            if crate::def::def_kind_spec(env.tables, g) == DefKind::ConstParam {
                let (next, k) = crate::unify::fresh_const_spec(st);
                let more = crate::subst::bind_const_spec(map, g, k);
                assert forall|d: DefId| !crate::def::def_in_spec(&generics, d) implies (
                #[trigger] crate::subst::find_const_spec(&more.consts, d)) is None by {
                    assert(d != g);
                    assert(crate::subst::find_const_spec(&map.consts, d) is None);
                }
                assert forall|d: DefId| !crate::def::def_in_spec(&generics, d) implies (
                #[trigger] crate::subst::find_ty_spec(&more.tys, d)) is None by {
                    assert(crate::subst::find_ty_spec(&map.tys, d) is None);
                }
                a_fresh_map_binds_only(next, env, *t, crate::subst::bind_const_spec(map, g, k), generics);
            } else {
                let (next, v) = crate::unify::fresh_spec(st);
                let more = crate::subst::bind_ty_spec(map, g, v);
                assert forall|d: DefId| !crate::def::def_in_spec(&generics, d) implies (
                #[trigger] crate::subst::find_ty_spec(&more.tys, d)) is None by {
                    assert(d != g);
                    assert(crate::subst::find_ty_spec(&map.tys, d) is None);
                }
                assert forall|d: DefId| !crate::def::def_in_spec(&generics, d) implies (
                #[trigger] crate::subst::find_const_spec(&more.consts, d)) is None by {
                    assert(crate::subst::find_const_spec(&map.consts, d) is None);
                }
                a_fresh_map_binds_only(next, env, *t, crate::subst::bind_ty_spec(map, g, v), generics);
            }
        },
    }
}

proof fn a_mismatch_is_refused(st: InfererV, l: List<Ty>, args: List<Ty>, map: Subst, k: int, fuel: u64)
    requires
        0 <= k < l@.len(),
        k < args@.len(),
        ({
            let t = subst_ty_spec(&l@[k], &map);
            &&& settled(&t)
            &&& lengths_fit(t)
            &&& reach(t) < fuel
            &&& settled(&args@[k])
            &&& lengths_fit(args@[k])
            &&& !fits(t, args@[k])
        }),
    ensures
        !unify_trait_args_spec(st, &l, &args, &map, fuel).1,
    decreases l,
{
    match (l, args) {
        (List::Cons(t, ts), List::Cons(a, rest)) => {
            assert(l@ =~= seq![t] + ts@);
            assert(args@ =~= seq![a] + rest@);
            let less = (fuel - 1) as u64;
            if k == 0 {
                settled_types_agree_when_one_fits(st, subst_ty_spec(&t, &map), a, less);
            } else {
                assert(l@[k] == ts@[k - 1]);
                assert(args@[k] == rest@[k - 1]);
                let next = crate::unify::unify_spec(st, &subst_ty_spec(&t, &map), &a, less).0;
                a_mismatch_is_refused(next, *ts, *rest, map, k - 1, fuel);
            }
        },
        _ => {},
    }
}

/// Whether an impl's trait argument at a position settles by itself that it is not
/// the one asked for.
pub open spec fn other_argument(imp: ImplInfo, t: TypedImpl, args: List<Ty>, k: int, fuel: u64) -> bool {
    &&& t.trait_args@.len() == args@.len()
    &&& args@.len() < u64::MAX
    &&& 0 <= k < args@.len()
    &&& apart(t.trait_args@[k], imp.generics)
    &&& settled(&t.trait_args@[k])
    &&& lengths_fit(t.trait_args@[k])
    &&& reach(t.trait_args@[k]) + 1 < fuel
    &&& settled(&args@[k])
    &&& lengths_fit(args@[k])
    &&& !fits(t.trait_args@[k], args@[k])
}

/// An impl of a trait with one argument is no candidate where the trait is asked for
/// with another: whatever else fits, a settled argument of the impl that does not fit
/// the one at its position refuses it.
pub proof fn an_impl_of_another_argument_is_no_candidate(
    st: InfererV,
    env: &InferCx,
    i: u64,
    s: Ty,
    args: List<Ty>,
    t: TypedImpl,
    k: int,
    fuel: u64,
)
    requires
        get_impl_spec(env, i) is Some,
        get_impl_spec(env, i)->0.typed == Some(t),
        other_argument(*get_impl_spec(env, i)->0, t, args, k, fuel),
    ensures
        !trial_impl_spec(st, env, i, &s, &args, fuel).1,
{
    let imp = *get_impl_spec(env, i)->0;
    let (one, map) = crate::solve::fresh_impl_map_spec(st, env, &imp.generics, crate::subst::no_subst_spec());
    a_fresh_map_binds_only(st, env, imp.generics, crate::subst::no_subst_spec(), imp.generics);
    what_is_apart_stays(t.trait_args@[k], map, imp.generics);
    crate::laws::calls::length_counts(t.trait_args);
    crate::laws::calls::length_counts(args);
    let less = (fuel - 1) as u64;
    let (two, own) = crate::solve::impl_self_ty_spec(one, env, &imp, &map, less);
    let three = crate::unify::unify_spec(two, &s, &own, less).0;
    let four = crate::solve::impl_trait_args_spec(three, env, &imp, less);
    assert(four == (three, t.trait_args));
    a_mismatch_is_refused(three, t.trait_args, args, map, k, less);
    a_mismatch_is_refused(two, t.trait_args, args, map, k, less);
}

/// An impl for another type is no candidate: a settled target that names none of the
/// impl's own parameters and does not fit the type refuses it.
pub proof fn an_impl_for_another_type_is_no_candidate(
    st: InfererV,
    env: &InferCx,
    i: u64,
    s: Ty,
    args: List<Ty>,
    t: TypedImpl,
    fuel: u64,
)
    requires
        get_impl_spec(env, i) is Some,
        get_impl_spec(env, i)->0.typed == Some(t),
        apart(t.self_ty, get_impl_spec(env, i)->0.generics),
        settled(&t.self_ty),
        lengths_fit(t.self_ty),
        settled(&s),
        lengths_fit(s),
        reach(s) + 1 < fuel,
        !fits(s, t.self_ty),
    ensures
        !trial_impl_spec(st, env, i, &s, &args, fuel).1,
{
    let imp = *get_impl_spec(env, i)->0;
    let (one, map) = crate::solve::fresh_impl_map_spec(st, env, &imp.generics, crate::subst::no_subst_spec());
    a_fresh_map_binds_only(st, env, imp.generics, crate::subst::no_subst_spec(), imp.generics);
    what_is_apart_stays(t.self_ty, map, imp.generics);
    settled_types_agree_when_one_fits(one, s, t.self_ty, (fuel - 1) as u64);
}

// Impls without parameters: what applies, exactly.

/// Whether an impl has no parameters, and everything it says of its types is settled.
pub open spec fn ground(imp: ImplInfo) -> bool {
    &&& imp.generics == List::<DefId>::Nil
    &&& match imp.typed {
        Some(t) => {
            &&& settled(&t.self_ty)
            &&& lengths_fit(t.self_ty)
            &&& all_settled(&t.trait_args)
            &&& all_lengths_fit(t.trait_args)
            &&& t.trait_args@.len() < u64::MAX
        },
        None => false,
    }
}

/// Whether an impl without parameters applies to a type and some trait arguments: the
/// type fits its target, and where as many arguments are asked for as it has, each of
/// its own fits the one asked for.
pub open spec fn applies(imp: ImplInfo, s: Ty, args: List<Ty>) -> bool {
    match imp.typed {
        Some(t) => {
            &&& t.self_ty != Ty::Error
            &&& fits(s, t.self_ty)
            &&& t.trait_args@.len() == args@.len() ==> all_fit(t.trait_args, args)
        },
        None => false,
    }
}

/// Whether a question about a type and trait arguments leaves nothing open, and is no
/// deeper than a walk goes.
pub open spec fn settled_question(s: Ty, args: List<Ty>) -> bool {
    &&& settled(&s)
    &&& lengths_fit(s)
    &&& all_settled(&args)
    &&& all_lengths_fit(args)
    &&& args@.len() < u64::MAX
}

/// Whether a walk goes deep enough for a question and an impl.
pub open spec fn deep_enough(imp: ImplInfo, s: Ty, fuel: u64) -> bool {
    &&& reach(s) + 3 < fuel
    &&& match imp.typed {
        Some(t) => crate::laws::agreement::reach_of_all(t.trait_args) + 3 < fuel,
        None => true,
    }
}

proof fn nothing_is_bound_by_nothing(l: List<Ty>, ty: Ty)
    ensures
        subst_ty_spec(&ty, &crate::subst::no_subst_spec()) == ty,
{
    crate::laws::types::the_empty_instantiation_changes_nothing(ty);
}

proof fn settled_arguments_agree(st: InfererV, l: List<Ty>, args: List<Ty>, fuel: u64)
    requires
        all_settled(&l),
        all_lengths_fit(l),
        all_settled(&args),
        all_lengths_fit(args),
        crate::laws::agreement::reach_of_all(l) <= fuel,
        l@.len() == args@.len(),
    ensures
        unify_trait_args_spec(st, &l, &args, &crate::subst::no_subst_spec(), fuel) == (st, all_fit(l, args)),
    decreases l,
{
    match (l, args) {
        (List::Cons(t, ts), List::Cons(a, rest)) => {
            assert(l@ =~= seq![t] + ts@);
            assert(args@ =~= seq![a] + rest@);
            nothing_is_bound_by_nothing(l, t);
            settled_types_agree_when_one_fits(st, t, a, (fuel - 1) as u64);
            settled_arguments_agree(st, *ts, *rest, fuel);
        },
        (List::Cons(t, ts), List::Nil) => {
            assert(l@ =~= seq![t] + ts@);
        },
        (List::Nil, List::Cons(a, rest)) => {
            assert(args@ =~= seq![a] + rest@);
        },
        _ => {},
    }
}

/// Trying an impl without parameters answers exactly whether it applies, and changes
/// nothing.
pub proof fn trying_an_impl_tells_whether_it_applies(
    st: InfererV,
    env: &InferCx,
    i: u64,
    s: Ty,
    args: List<Ty>,
    fuel: u64,
)
    requires
        get_impl_spec(env, i) is Some,
        ground(*get_impl_spec(env, i)->0),
        settled_question(s, args),
        deep_enough(*get_impl_spec(env, i)->0, s, fuel),
    ensures
        trial_impl_spec(st, env, i, &s, &args, fuel) == (st, applies(*get_impl_spec(env, i)->0, s, args)),
{
    let imp = *get_impl_spec(env, i)->0;
    let t = imp.typed->0;
    let less = (fuel - 1) as u64;
    let none = crate::subst::no_subst_spec();
    nothing_is_bound_by_nothing(List::Nil, t.self_ty);
    settled_types_agree_when_one_fits(st, s, t.self_ty, less);
    crate::laws::calls::length_counts(t.trait_args);
    crate::laws::calls::length_counts(args);
    assert(crate::solve::fresh_impl_map_spec(st, env, &imp.generics, none) == (st, none));
    assert(crate::solve::impl_self_ty_spec(st, env, &imp, &none, less) == (st, t.self_ty));
    assert(crate::solve::impl_trait_args_spec(st, env, &imp, less) == (st, t.trait_args));
    if t.trait_args@.len() == args@.len() {
        settled_arguments_agree(st, t.trait_args, args, less);
    }
    assert(crate::list::is_empty_spec(&t.trait_args) == (t.trait_args@.len() == 0)) by {
        match t.trait_args {
            List::Nil => {},
            List::Cons(h, r) => {
                assert(t.trait_args@ =~= seq![h] + r@);
            },
        }
    }
    if t.trait_args@.len() == 0 && args@.len() == 0 {
        assert(all_fit(t.trait_args, args)) by {
            match args {
                List::Nil => {},
                List::Cons(h, r) => {
                    assert(args@ =~= seq![h] + r@);
                },
            }
            match t.trait_args {
                List::Nil => {},
                List::Cons(h, r) => {
                    assert(t.trait_args@ =~= seq![h] + r@);
                },
            }
        }
    }
    assert(crate::solve::impl_bounds_hold_spec(st, env, &imp.generics, &none, less) == (st, true));
    assert(crate::unify::rollback_spec(st, crate::unify::snapshot_spec(st)) == st);
}

/// Whether every impl of a trait from a position on has no parameters, and a walk goes
/// deep enough for it.
pub open spec fn all_ground(env: &InferCx, i: u64, s: Ty, trait_def: DefId, fuel: u64) -> bool {
    forall|j: u64|
        i <= j && #[trigger] get_impl_spec(env, j) is Some && get_impl_spec(env, j)->0.trait_def == Some(trait_def)
            ==> ground(*get_impl_spec(env, j)->0) && deep_enough(*get_impl_spec(env, j)->0, s, fuel)
}

/// The impls of a trait that apply, from a position on, each with how specific it is:
/// one for one type counts more than one for whatever its parameter is.
pub open spec fn candidates(env: &InferCx, i: u64, s: Ty, trait_def: DefId, args: List<Ty>) -> Seq<(u64, Choice)>
    decreases u64::MAX - i,
{
    match get_impl_spec(env, i) {
        Some(imp) => {
            let rest = candidates(env, (i + 1) as u64, s, trait_def, args);
            if imp.trait_def == Some(trait_def) && applies(*imp, s, args) {
                seq![(if imp.self_is_generic { 1u64 } else { 2u64 }, Choice::User(i))] + rest
            } else {
                rest
            }
        },
        None => Seq::empty(),
    }
}

proof fn weighing_goes_on(front: Seq<(u64, Choice)>, next: (u64, Choice))
    ensures
        crate::solve::consider_spec(weighed(front), next.0, next.1) == weighed(front.push(next)),
{
    assert(front.push(next).drop_last() =~= front);
}

/// Every impl that applies is weighed, once, in order, and no other.
pub proof fn exactly_what_applies_is_weighed(
    st: InfererV,
    env: &InferCx,
    i: u64,
    s: Ty,
    trait_def: DefId,
    args: List<Ty>,
    front: Seq<(u64, Choice)>,
    fuel: u64,
)
    requires
        settled_question(s, args),
        fuel > 0,
        all_ground(env, i, s, trait_def, (fuel - 1) as u64),
    ensures
        consider_impls_spec(st, env, i, &s, trait_def, &args, weighed(front), fuel) == (
            st,
            weighed(front + candidates(env, i, s, trait_def, args)),
        ),
    decreases u64::MAX - i,
{
    match get_impl_spec(env, i) {
        Some(imp) => {
            let next = (i + 1) as u64;
            let rest = candidates(env, next, s, trait_def, args);
            assert(all_ground(env, next, s, trait_def, (fuel - 1) as u64));
            if imp.trait_def == Some(trait_def) {
                assert(get_impl_spec(env, i) is Some);
                trying_an_impl_tells_whether_it_applies(st, env, i, s, args, (fuel - 1) as u64);
                if applies(*imp, s, args) {
                    let one = (if imp.self_is_generic { 1u64 } else { 2u64 }, Choice::User(i));
                    weighing_goes_on(front, one);
                    exactly_what_applies_is_weighed(st, env, next, s, trait_def, args, front.push(one), fuel);
                    assert(front.push(one) + rest =~= front + (seq![one] + rest));
                } else {
                    exactly_what_applies_is_weighed(st, env, next, s, trait_def, args, front, fuel);
                }
            } else {
                exactly_what_applies_is_weighed(st, env, next, s, trait_def, args, front, fuel);
            }
        },
        None => {
            assert(front + Seq::<(u64, Choice)>::empty() =~= front);
        },
    }
}

/// Whether the impls written for a trait are all there is to say of a type: the trait
/// is none the language answers for, and the type is no trait object.
pub open spec fn only_impls_tell(env: &InferCx, s: Ty, trait_def: DefId) -> bool {
    &&& crate::def::lang_def_spec(env.tables, "func") != Some(trait_def)
    &&& crate::def::lang_def_spec(env.tables, "sized") != Some(trait_def)
    &&& crate::solve::builtin_for_trait_spec(env.tables, trait_def) is None
    &&& s != Ty::Error
    &&& match s {
        Ty::Dyn { .. } => false,
        _ => true,
    }
}

/// Where impls apply, the one for the type itself is chosen over one for any type, and
/// two that are as specific as each other are ambiguous.
pub proof fn the_impl_that_applies_is_chosen(
    st: InfererV,
    env: &InferCx,
    s: Ty,
    trait_def: DefId,
    args: List<Ty>,
    fuel: u64,
) -> (i: int)
    requires
        settled_question(s, args),
        only_impls_tell(env, s, trait_def),
        fuel > 2,
        all_ground(env, 0, s, trait_def, (fuel - 2) as u64),
        candidates(env, 0, s, trait_def, args).len() > 0,
    ensures
        ({
            let c = candidates(env, 0, s, trait_def, args);
            &&& first_of_the_best(c, i)
            &&& select_spec(st, env, &s, trait_def, &args, fuel) == (
                st,
                if matched_later(c, i) {
                    Select::Ambiguous
                } else {
                    Select::Found(c[i].1)
                },
            )
        }),
{
    let c = candidates(env, 0, s, trait_def, args);
    assert(weighed(Seq::empty()) is None);
    assert(crate::unify::shallow_spec(st, &s, crate::list::DEPTH_LIMIT) == s);
    assert(Seq::<(u64, Choice)>::empty() + c =~= c);
    exactly_what_applies_is_weighed(st, env, 0, s, trait_def, args, Seq::empty(), (fuel - 1) as u64);
    let i = the_most_specific_wins(c);
    i
}

/// A type that has no name to stand over another, and that no impl applies to, does not
/// implement the trait.
pub proof fn what_no_impl_applies_to_is_not_implemented(
    st: InfererV,
    env: &InferCx,
    s: Ty,
    trait_def: DefId,
    args: List<Ty>,
    fuel: u64,
)
    requires
        settled_question(s, args),
        only_impls_tell(env, s, trait_def),
        fuel > 2,
        all_ground(env, 0, s, trait_def, (fuel - 2) as u64),
        candidates(env, 0, s, trait_def, args).len() == 0,
        match s {
            Ty::Nominal { .. } => false,
            Ty::Ptr { .. } => false,
            _ => true,
        },
    ensures
        select_spec(st, env, &s, trait_def, &args, fuel).1 == Select::NoImpl,
{
    let c = candidates(env, 0, s, trait_def, args);
    assert(weighed(Seq::empty()) is None);
    assert(crate::unify::shallow_spec(st, &s, crate::list::DEPTH_LIMIT) == s);
    assert(c =~= Seq::empty());
    assert(Seq::<(u64, Choice)>::empty() + c =~= Seq::empty());
    exactly_what_applies_is_weighed(st, env, 0, s, trait_def, args, Seq::empty(), (fuel - 1) as u64);
    assert(crate::types::distinct_repr_spec(st, env, &s, (fuel - 1) as u64).1 is None);
    assert(!crate::types::param_has_bound_spec(
        crate::types::distinct_repr_spec(st, env, &s, (fuel - 1) as u64).0,
        env,
        &s,
        trait_def,
    )) by {
        let after = crate::types::distinct_repr_spec(st, env, &s, (fuel - 1) as u64).0;
        assert(crate::unify::shallow_spec(after, &s, crate::list::DEPTH_LIMIT) == s);
    }
}

// Whatever the impls are.

/// Whether a choice is an impl of a trait.
pub open spec fn is_of_trait(env: &InferCx, c: Choice, trait_def: DefId) -> bool {
    match c {
        Choice::User(j) => match get_impl_spec(env, j) {
            Some(imp) => imp.trait_def == Some(trait_def),
            None => false,
        },
        Choice::Builtin(_) => true,
    }
}

proof fn what_is_weighed_is_of_the_trait(
    st: InfererV,
    env: &InferCx,
    i: u64,
    s: Ty,
    trait_def: DefId,
    args: List<Ty>,
    best: Option<Best>,
    fuel: u64,
)
    requires
        match best {
            Some(b) => is_of_trait(env, b.choice, trait_def),
            None => true,
        },
    ensures
        match consider_impls_spec(st, env, i, &s, trait_def, &args, best, fuel).1 {
            Some(b) => is_of_trait(env, b.choice, trait_def),
            None => true,
        },
    decreases u64::MAX - i,
{
    if fuel > 0 {
        match get_impl_spec(env, i) {
            Some(imp) => {
                let up = crate::list::succ_spec(i);
                if imp.trait_def == Some(trait_def) {
                    let (next, ok) = trial_impl_spec(st, env, i, &s, &args, (fuel - 1) as u64);
                    let score: u64 = if imp.self_is_generic { 1 } else { 2 };
                    let b = if ok {
                        crate::solve::consider_spec(best, score, Choice::User(i))
                    } else {
                        best
                    };
                    what_is_weighed_is_of_the_trait(next, env, up, s, trait_def, args, b, fuel);
                } else {
                    what_is_weighed_is_of_the_trait(st, env, up, s, trait_def, args, best, fuel);
                }
            },
            None => {},
        }
    }
}

/// The impl an obligation is met by is one of the trait it asks for.
pub proof fn a_found_impl_is_of_the_trait(
    st: InfererV,
    env: &InferCx,
    s: Ty,
    trait_def: DefId,
    args: List<Ty>,
    fuel: u64,
)
    ensures
        match select_spec(st, env, &s, trait_def, &args, fuel).1 {
            Select::Found(c) => is_of_trait(env, c, trait_def),
            _ => true,
        },
{
    if fuel > 0 {
        let less = (fuel - 1) as u64;
        let t = crate::unify::shallow_spec(st, &s, crate::list::DEPTH_LIMIT);
        let (one, special) = crate::solve::select_special_spec(st, env, &t, trait_def, less);
        let start = crate::solve::consider_builtin_spec(one, env, &t, trait_def);
        what_is_weighed_is_of_the_trait(one, env, 0, t, trait_def, args, start, less);
        let two = consider_impls_spec(one, env, 0, &t, trait_def, &args, start, less).0;
        let (three, repr) = crate::types::distinct_repr_spec(two, env, &t, less);
        match repr {
            Some(r) => {
                let u = crate::unify::shallow_spec(three, &r, crate::list::DEPTH_LIMIT);
                let again = crate::solve::consider_builtin_spec(three, env, &u, trait_def);
                what_is_weighed_is_of_the_trait(three, env, 0, u, trait_def, args, again, less);
            },
            None => {},
        }
    }
}

/// What comes of an obligation follows what was selected: it is met where something
/// was found or promised, put off where it cannot be told yet, and complained about
/// where nothing applies or too much does.
pub proof fn an_obligation_is_met_where_something_was_selected(
    st: InfererV,
    env: &InferCx,
    s: Ty,
    trait_def: DefId,
    args: List<Ty>,
    origin: NodeId,
    stamp: Option<Symbol>,
    fuel: u64,
)
    requires
        fuel > 0,
    ensures
        ({
            let (asked, found) = select_spec(st, env, &s, trait_def, &args, (fuel - 1) as u64);
            let (after, outcome) = crate::solve::solve_trait_spec(st, env, &s, trait_def, &args, origin, &stamp, fuel);
            match found {
                Select::Found(_) => outcome == Outcome::Solved,
                Select::ByBound => outcome == Outcome::Solved,
                Select::Error => outcome == Outcome::Solved && after == asked,
                Select::Defer => outcome == Outcome::Deferred && after == asked,
                Select::NoImpl => outcome == Outcome::Failed && after.diags.len() == asked.diags.len() + 1,
                Select::Ambiguous => outcome == Outcome::Failed && after.diags.len() == asked.diags.len() + 1,
            }
        }),
{
}

/// What a static trait call or an operator is recorded as is the member of the impl
/// that was chosen, and a bound that answers is recorded as the trait with the type
/// and the arguments it was asked at.
pub proof fn a_met_obligation_is_recorded(
    st: InfererV,
    env: &InferCx,
    s: Ty,
    trait_def: DefId,
    args: List<Ty>,
    origin: NodeId,
    name: Symbol,
    fuel: u64,
)
    requires
        fuel > 0,
    ensures
        ({
            let (asked, found) = select_spec(st, env, &s, trait_def, &args, (fuel - 1) as u64);
            let after = crate::solve::solve_trait_spec(st, env, &s, trait_def, &args, origin, &Some(name), fuel).0;
            match found {
                Select::Found(Choice::User(i)) => match crate::solve::impl_member_spec(env, i, &name) {
                    Some(m) => {
                        let key = crate::ids::node_key_spec(after.file, origin);
                        let r = after.facts.op_resolution[key];
                        &&& after.facts.op_resolution.dom().contains(key)
                        &&& r.method == m
                        &&& r.trait_def == trait_def
                        &&& r.builtin is None
                    },
                    None => true,
                },
                Select::ByBound => match crate::unify::get_static_trait_self_spec(after, after.file, origin) {
                    Some(r) => r.trait_def == trait_def && r.self_ty == s && r.trait_args == args,
                    None => false,
                },
                _ => true,
            }
        }),
{
}

} // verus!
