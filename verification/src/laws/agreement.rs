//! When two settled types agree.

use vstd::prelude::*;

use crate::list::List;
use crate::subst::Mention;
use crate::symbol::Symbol;
use crate::ty::{Const, Ty};
use crate::unify::{all_settled, settled, InfererV};

verus! {

/// Whether two compile-time values are the same, as far as they are known.
pub open spec fn same_value(a: Const, b: Const) -> bool {
    ||| a == Const::Error
    ||| b == Const::Error
    ||| match (crate::ty::const_value_spec(&a), crate::ty::const_value_spec(&b)) {
        (Some(m), Some(n)) => m == n,
        _ => a == b,
    }
}

/// Whether a value of one type may stand where another is wanted without any
/// conversion. An error stands for anything, and so does `never`; a permission to
/// write may be given up, and never gained; and everything else is the same type,
/// part by part.
pub open spec fn fits(a: Ty, b: Ty) -> bool
    decreases a,
{
    if a == Ty::Error || b == Ty::Error || a == Ty::Never || b == Ty::Never {
        true
    } else {
        match (a, b) {
            (Ty::Int { signed: s, width: m }, Ty::Int { signed: t, width: n }) => s == t && same_value(m, n),
            (Ty::Nominal { def: d, args: x }, Ty::Nominal { def: e, args: y }) => d == e && all_fit(*x, *y),
            (Ty::Ptr { mutable: m, inner: x }, Ty::Ptr { mutable: n, inner: y }) => (n ==> m) && fits(*x, *y),
            (Ty::Slice { mutable: m, inner: x }, Ty::Slice { mutable: n, inner: y }) => (n ==> m) && fits(*x, *y),
            (Ty::Array { len: k, mutable: m, inner: x }, Ty::Array { len: l, mutable: n, inner: y }) => (n ==> m)
                && same_value(k, l) && fits(*x, *y),
            (Ty::Tuple(x), Ty::Tuple(y)) => all_fit(*x, *y),
            (Ty::Dyn { def: d, assoc: x }, Ty::Dyn { def: e, assoc: y }) => d == e && named_fit(*x, *y),
            (Ty::Struct(x), Ty::Struct(y)) => named_fit(*x, *y),
            (Ty::Func { params: p, ret: r, c }, Ty::Func { params: q, ret: s, c: d }) => c == d && all_fit(*p, *q)
                && fits(*r, *s),
            _ => a == b,
        }
    }
}

/// The same, position by position.
pub open spec fn all_fit(x: List<Ty>, y: List<Ty>) -> bool
    decreases x,
{
    match (x, y) {
        (List::Nil, List::Nil) => true,
        (List::Cons(a, s), List::Cons(b, t)) => fits(a, b) && all_fit(*s, *t),
        _ => false,
    }
}

/// The same, name by name.
pub open spec fn named_fit(x: List<(Symbol, Ty)>, y: List<(Symbol, Ty)>) -> bool
    decreases x,
{
    match (x, y) {
        (List::Nil, List::Nil) => true,
        (List::Cons(a, s), List::Cons(b, t)) => a.0 == b.0 && fits(a.1, b.1) && named_fit(*s, *t),
        _ => false,
    }
}

/// How deep a walk over a type goes.
pub open spec fn reach(ty: Ty) -> nat
    decreases ty,
{
    match ty {
        Ty::Nominal { def: _, args } => 1 + reach_of_all(*args),
        Ty::Ptr { mutable: _, inner } => 1 + reach(*inner),
        Ty::Slice { mutable: _, inner } => 1 + reach(*inner),
        Ty::Array { len: _, mutable: _, inner } => 1 + reach(*inner),
        Ty::Tuple(elems) => 1 + reach_of_all(*elems),
        Ty::Dyn { def: _, assoc } => 1 + reach_of_named(*assoc),
        Ty::Struct(fields) => 1 + reach_of_named(*fields),
        Ty::Func { params, ret, c: _ } => 1 + larger(reach_of_all(*params), reach(*ret)),
        _ => 1,
    }
}

/// The larger of two numbers.
pub open spec fn larger(a: nat, b: nat) -> nat {
    if a < b { b } else { a }
}

/// How deep a walk over a list of types goes.
pub open spec fn reach_of_all(l: List<Ty>) -> nat
    decreases l,
{
    match l {
        List::Nil => 1,
        List::Cons(h, t) => larger(1 + reach(h), reach_of_all(*t)),
    }
}

/// How deep a walk over a list of named types goes.
pub open spec fn reach_of_named(l: List<(Symbol, Ty)>) -> nat
    decreases l,
{
    match l {
        List::Nil => 1,
        List::Cons(h, t) => larger(1 + reach(h.1), reach_of_named(*t)),
    }
}

/// Whether two types are settled, and no larger than a walk goes.
pub open spec fn plain_pair(a: Ty, b: Ty) -> bool {
    &&& settled(&a)
    &&& settled(&b)
    &&& lengths_fit(a)
    &&& lengths_fit(b)
    &&& reach(a) <= crate::list::DEPTH_LIMIT
}

/// Two settled types agree exactly when a value of the one may stand where the
/// other is wanted, and finding out solves nothing.
pub proof fn settled_types_agree_when_one_fits(st: InfererV, a: Ty, b: Ty, fuel: u64)
    requires
        settled(&a),
        settled(&b),
        reach(a) <= fuel,
        lengths_fit(a),
        lengths_fit(b),
    ensures
        crate::unify::unify_spec(st, &a, &b, fuel).0 == st,
        crate::unify::unify_spec(st, &a, &b, fuel).1 is None <==> fits(a, b),
    decreases a,
{
    let less = (fuel - 1) as u64;
    match (a, b) {
        (Ty::Int { signed: _, width: m }, Ty::Int { signed: _, width: n }) => settled_values_agree(st, m, n),
        (Ty::Nominal { def: _, args: x }, Ty::Nominal { def: _, args: y }) => {
            lists_agree_in_length(*x, *y);
            settled_lists_agree(st, *x, *y, less);
        },
        (Ty::Ptr { mutable: _, inner: x }, Ty::Ptr { mutable: _, inner: y }) => {
            settled_types_agree_when_one_fits(st, *x, *y, less);
        },
        (Ty::Slice { mutable: _, inner: x }, Ty::Slice { mutable: _, inner: y }) => {
            settled_types_agree_when_one_fits(st, *x, *y, less);
        },
        (Ty::Array { len: k, mutable: _, inner: x }, Ty::Array { len: l, mutable: _, inner: y }) => {
            settled_values_agree(st, k, l);
            settled_types_agree_when_one_fits(st, *x, *y, less);
        },
        (Ty::Tuple(x), Ty::Tuple(y)) => {
            lists_agree_in_length(*x, *y);
            settled_lists_agree(st, *x, *y, less);
        },
        (Ty::Dyn { def: _, assoc: x }, Ty::Dyn { def: _, assoc: y }) => settled_named_agree(st, *x, *y, less),
        (Ty::Struct(x), Ty::Struct(y)) => settled_named_agree(st, *x, *y, less),
        (Ty::Func { params: p, ret: r, c: _ }, Ty::Func { params: q, ret: s, c: _ }) => {
            lists_agree_in_length(*p, *q);
            settled_lists_agree(st, *p, *q, less);
            settled_types_agree_when_one_fits(st, *r, *s, less);
        },
        _ => {},
    }
}

/// Whether every list of types in a type is shorter than a machine word counts.
pub open spec fn lengths_fit(ty: Ty) -> bool
    decreases ty,
{
    match ty {
        Ty::Nominal { def: _, args } => args@.len() < u64::MAX && all_lengths_fit(*args),
        Ty::Ptr { mutable: _, inner } => lengths_fit(*inner),
        Ty::Slice { mutable: _, inner } => lengths_fit(*inner),
        Ty::Array { len: _, mutable: _, inner } => lengths_fit(*inner),
        Ty::Tuple(elems) => elems@.len() < u64::MAX && all_lengths_fit(*elems),
        Ty::Dyn { def: _, assoc } => named_lengths_fit(*assoc),
        Ty::Struct(fields) => named_lengths_fit(*fields),
        Ty::Func { params, ret, c: _ } => params@.len() < u64::MAX && all_lengths_fit(*params) && lengths_fit(*ret),
        _ => true,
    }
}

/// The same of every type of a list.
pub open spec fn all_lengths_fit(l: List<Ty>) -> bool
    decreases l,
{
    match l {
        List::Nil => true,
        List::Cons(h, t) => lengths_fit(h) && all_lengths_fit(*t),
    }
}

/// The same of every named type of a list.
pub open spec fn named_lengths_fit(l: List<(Symbol, Ty)>) -> bool
    decreases l,
{
    match l {
        List::Nil => true,
        List::Cons(h, t) => lengths_fit(h.1) && named_lengths_fit(*t),
    }
}

proof fn lists_agree_in_length(x: List<Ty>, y: List<Ty>)
    requires
        x@.len() < u64::MAX,
        y@.len() < u64::MAX,
    ensures
        (crate::list::list_len_spec(&x) == crate::list::list_len_spec(&y)) == (x@.len() == y@.len()),
        all_fit(x, y) ==> x@.len() == y@.len(),
{
    crate::laws::calls::length_counts(x);
    crate::laws::calls::length_counts(y);
    fitting_lists_are_as_long(x, y);
}

proof fn fitting_lists_are_as_long(x: List<Ty>, y: List<Ty>)
    ensures
        all_fit(x, y) ==> x@.len() == y@.len(),
    decreases x,
{
    match (x, y) {
        (List::Cons(a, s), List::Cons(b, t)) => {
            assert(x@ =~= seq![a] + s@);
            assert(y@ =~= seq![b] + t@);
            fitting_lists_are_as_long(*s, *t);
        },
        _ => {},
    }
}

proof fn settled_values_agree(st: InfererV, a: Const, b: Const)
    requires
        !crate::subst::const_mentions_spec(&a, Mention::Var),
        !crate::subst::const_mentions_spec(&b, Mention::Var),
    ensures
        crate::unify::unify_const_spec(st, &a, &b) == (st, same_value(a, b)),
{
}

proof fn settled_lists_agree(st: InfererV, x: List<Ty>, y: List<Ty>, fuel: u64)
    requires
        all_settled(&x),
        all_settled(&y),
        reach_of_all(x) <= fuel,
        all_lengths_fit(x),
        all_lengths_fit(y),
    ensures
        x@.len() == y@.len() ==> {
            &&& crate::unify::unify_tys_spec(st, &x, &y, fuel).0 == st
            &&& crate::unify::unify_tys_spec(st, &x, &y, fuel).1 is None <==> all_fit(x, y)
        },
    decreases x,
{
    match (x, y) {
        (List::Cons(a, s), List::Cons(b, t)) => {
            assert(x@ =~= seq![a] + s@);
            assert(y@ =~= seq![b] + t@);
            settled_types_agree_when_one_fits(st, a, b, (fuel - 1) as u64);
            settled_lists_agree(st, *s, *t, fuel);
        },
        (List::Cons(a, s), List::Nil) => {
            assert(x@ =~= seq![a] + s@);
        },
        (List::Nil, List::Cons(b, t)) => {
            assert(y@ =~= seq![b] + t@);
        },
        _ => {},
    }
}

proof fn settled_named_agree(st: InfererV, x: List<(Symbol, Ty)>, y: List<(Symbol, Ty)>, fuel: u64)
    requires
        !crate::subst::any_named_mentions_spec(&x, Mention::Var),
        !crate::subst::any_named_mentions_spec(&y, Mention::Var),
        reach_of_named(x) <= fuel,
        named_lengths_fit(x),
        named_lengths_fit(y),
    ensures
        crate::unify::same_names_spec(&x, &y) ==> {
            &&& crate::unify::unify_named_spec(st, &x, &y, fuel).0 == st
            &&& crate::unify::unify_named_spec(st, &x, &y, fuel).1 is None <==> named_fit(x, y)
        },
        !crate::unify::same_names_spec(&x, &y) ==> !named_fit(x, y),
    decreases x,
{
    match (x, y) {
        (List::Cons(a, s), List::Cons(b, t)) => {
            settled_types_agree_when_one_fits(st, a.1, b.1, (fuel - 1) as u64);
            settled_named_agree(st, *s, *t, fuel);
        },
        _ => {},
    }
}

// Variables.

proof fn a_settled_type_holds_no_variable(st: InfererV, v: u32, ty: Ty, fuel: u64)
    requires
        settled(&ty),
        reach(ty) <= fuel,
    ensures
        !crate::unify::occurs_spec(st, v, &ty, fuel),
    decreases ty,
{
    let less = (fuel - 1) as u64;
    match ty {
        Ty::Nominal { def: _, args } => settled_types_hold_no_variable(st, v, *args, less),
        Ty::Ptr { mutable: _, inner } => a_settled_type_holds_no_variable(st, v, *inner, less),
        Ty::Slice { mutable: _, inner } => a_settled_type_holds_no_variable(st, v, *inner, less),
        Ty::Array { len: _, mutable: _, inner } => a_settled_type_holds_no_variable(st, v, *inner, less),
        Ty::Tuple(elems) => settled_types_hold_no_variable(st, v, *elems, less),
        Ty::Dyn { def: _, assoc } => settled_named_hold_no_variable(st, v, *assoc, less),
        Ty::Struct(fields) => settled_named_hold_no_variable(st, v, *fields, less),
        Ty::Func { params, ret, c: _ } => {
            settled_types_hold_no_variable(st, v, *params, less);
            a_settled_type_holds_no_variable(st, v, *ret, less);
        },
        _ => {},
    }
}

proof fn settled_types_hold_no_variable(st: InfererV, v: u32, l: List<Ty>, fuel: u64)
    requires
        all_settled(&l),
        reach_of_all(l) <= fuel,
    ensures
        !crate::unify::occurs_in_spec(st, v, &l, fuel),
    decreases l,
{
    match l {
        List::Nil => {},
        List::Cons(h, t) => {
            a_settled_type_holds_no_variable(st, v, h, (fuel - 1) as u64);
            settled_types_hold_no_variable(st, v, *t, fuel);
        },
    }
}

proof fn settled_named_hold_no_variable(st: InfererV, v: u32, l: List<(Symbol, Ty)>, fuel: u64)
    requires
        !crate::subst::any_named_mentions_spec(&l, Mention::Var),
        reach_of_named(l) <= fuel,
    ensures
        !crate::unify::occurs_named_spec(st, v, &l, fuel),
    decreases l,
{
    match l {
        List::Nil => {},
        List::Cons(h, t) => {
            a_settled_type_holds_no_variable(st, v, h.1, (fuel - 1) as u64);
            settled_named_hold_no_variable(st, v, *t, fuel);
        },
    }
}

/// A variable that nothing has solved becomes the settled type it meets, `never`
/// aside, where a variable of its kind may: it stands for that type from then on, and nothing
/// else changes. Where one may not, nothing changes at all.
pub proof fn a_variable_becomes_what_it_meets(st: InfererV, v: u32, ty: Ty, fuel: u64)
    requires
        crate::unify::find_binding_spec(&st.bindings, v) is None,
        settled(&ty),
        ty != Ty::Never,
        reach(ty) <= crate::list::DEPTH_LIMIT,
        fuel > 1,
    ensures
        ({
            let (after, clash) = crate::unify::unify_spec(st, &Ty::Var(v), &ty, fuel);
            if crate::unify::admits_spec(st, crate::unify::find_kind_spec(&st.kinds, v), &ty) {
                &&& clash is None
                &&& after == crate::unify::push_binding_spec(st, (v, ty))
                &&& crate::unify::resolve_spec(after, &Ty::Var(v), fuel) == ty
            } else {
                clash is Some && after == st
            }
        }),
{
    a_settled_type_holds_no_variable(st, v, ty, crate::list::DEPTH_LIMIT);
    let after = crate::unify::unify_spec(st, &Ty::Var(v), &ty, fuel).0;
    crate::laws::types::resolving_a_settled_type_changes_nothing(after, ty, (fuel - 1) as u64);
}

/// A variable and `never` agree whichever is the value, whatever the variable may
/// become, and neither solves anything: only the meeting is noted.
pub proof fn never_solves_no_variable(st: InfererV, v: u32, fuel: u64)
    requires
        crate::unify::find_binding_spec(&st.bindings, v) is None,
        fuel > 0,
    ensures
        crate::unify::unify_spec(st, &Ty::Never, &Ty::Var(v), fuel) == (
            crate::unify::push_diverged_spec(st, v),
            None::<(Ty, Ty)>,
        ),
        crate::unify::unify_spec(st, &Ty::Var(v), &Ty::Never, fuel) == (
            crate::unify::push_diverged_spec(st, v),
            None::<(Ty, Ty)>,
        ),
{
}

/// A variable that only `never` met is `never` in the end, and is not complained
/// about.
pub proof fn what_only_never_met_is_never(st: InfererV, v: u32, fuel: u64)
    requires
        crate::unify::find_binding_spec(&st.bindings, v) is None,
        crate::unify::find_kind_spec(&st.kinds, v) == crate::unify::TyVarKind::General,
        fuel > 1,
    ensures
        ({
            let met = crate::unify::unify_spec(st, &Ty::Never, &Ty::Var(v), fuel).0;
            crate::unify::finalize_spec(met, &Ty::Var(v), fuel).1 == (Ty::Never, false)
        }),
{
    never_solves_no_variable(st, v, fuel);
}

/// A permission to write may be given up on the way into a slot, and never
/// gained.
pub proof fn permission_is_never_gained(a: Ty, b: Ty)
    ensures
        fits(
            Ty::Ptr { mutable: true, inner: Box::new(a) },
            Ty::Ptr { mutable: false, inner: Box::new(b) },
        ) == fits(a, b),
        !fits(Ty::Ptr { mutable: false, inner: Box::new(a) }, Ty::Ptr { mutable: true, inner: Box::new(b) }),
        fits(
            Ty::Slice { mutable: true, inner: Box::new(a) },
            Ty::Slice { mutable: false, inner: Box::new(b) },
        ) == fits(a, b),
        !fits(Ty::Slice { mutable: false, inner: Box::new(a) }, Ty::Slice { mutable: true, inner: Box::new(b) }),
{
}

} // verus!
