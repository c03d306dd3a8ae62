//! Laws of types: substitution, widening, settled types, and the order of names.

use vstd::arithmetic::power2::{lemma_pow2_pos, lemma_pow2_strictly_increases, pow2};
use vstd::prelude::*;

use crate::bigint::Int;
use crate::ids::DefId;
use crate::list::List;
use crate::subst::Mention;
use crate::symbol::Symbol;
use crate::ty::{Const, FloatWidth, Ty};
use crate::unify::{all_settled, settled, InfererV};

verus! {

/// The arguments listed by the one type `Func` takes them as are the arguments
/// it was made of.
pub proof fn arguments_survive_their_tuple(params: List<Ty>)
    ensures
        crate::subst::tuple_elems_spec(&crate::subst::args_tuple_spec(&params)) == params,
{
}

/// An instantiation that binds nothing changes no type.
pub proof fn the_empty_instantiation_changes_nothing(ty: Ty)
    ensures
        crate::subst::subst_ty_spec(&ty, &crate::subst::no_subst_spec()) == ty,
    decreases ty,
{
    match ty {
        Ty::Nominal { def: _, args } => the_empty_instantiation_changes_no_list(*args),
        Ty::Ptr { mutable: _, inner } => the_empty_instantiation_changes_nothing(*inner),
        Ty::Slice { mutable: _, inner } => the_empty_instantiation_changes_nothing(*inner),
        Ty::Array { len: _, mutable: _, inner } => the_empty_instantiation_changes_nothing(*inner),
        Ty::Tuple(elems) => the_empty_instantiation_changes_no_list(*elems),
        Ty::Func { params, ret, c: _ } => {
            the_empty_instantiation_changes_no_list(*params);
            the_empty_instantiation_changes_nothing(*ret);
        },
        _ => {},
    }
}

proof fn the_empty_instantiation_changes_no_list(l: List<Ty>)
    ensures
        crate::subst::subst_tys_spec(&l, &crate::subst::no_subst_spec()) == l,
    decreases l,
{
    match l {
        List::Nil => {},
        List::Cons(h, t) => {
            the_empty_instantiation_changes_nothing(h);
            the_empty_instantiation_changes_no_list(*t);
        },
    }
}

/// Putting a type in its own place changes nothing.
pub proof fn rebinding_a_type_to_itself_changes_nothing(ty: Ty, from: Ty)
    ensures
        crate::subst::rebind_ty_spec(&ty, &from, &from) == ty,
    decreases ty,
{
    match ty {
        Ty::Nominal { def: _, args } => rebinding_in_a_list_changes_nothing(*args, from),
        Ty::Ptr { mutable: _, inner } => rebinding_a_type_to_itself_changes_nothing(*inner, from),
        Ty::Slice { mutable: _, inner } => rebinding_a_type_to_itself_changes_nothing(*inner, from),
        Ty::Array { len: _, mutable: _, inner } => rebinding_a_type_to_itself_changes_nothing(*inner, from),
        Ty::Tuple(elems) => rebinding_in_a_list_changes_nothing(*elems, from),
        Ty::Dyn { def: _, assoc } => rebinding_in_named_changes_nothing(*assoc, from),
        Ty::Struct(fields) => rebinding_in_named_changes_nothing(*fields, from),
        Ty::Func { params, ret, c: _ } => {
            rebinding_in_a_list_changes_nothing(*params, from);
            rebinding_a_type_to_itself_changes_nothing(*ret, from);
        },
        _ => {},
    }
}

proof fn rebinding_in_a_list_changes_nothing(l: List<Ty>, from: Ty)
    ensures
        crate::subst::rebind_tys_spec(&l, &from, &from) == l,
    decreases l,
{
    match l {
        List::Nil => {},
        List::Cons(h, t) => {
            rebinding_a_type_to_itself_changes_nothing(h, from);
            rebinding_in_a_list_changes_nothing(*t, from);
        },
    }
}

proof fn rebinding_in_named_changes_nothing(l: List<(Symbol, Ty)>, from: Ty)
    ensures
        crate::subst::rebind_named_spec(&l, &from, &from) == l,
    decreases l,
{
    match l {
        List::Nil => {},
        List::Cons(h, t) => {
            rebinding_a_type_to_itself_changes_nothing(h.1, from);
            rebinding_in_named_changes_nothing(*t, from);
        },
    }
}

/// Whether a type occurs in another, or is it.
pub open spec fn occurs_within(ty: Ty, part: Ty) -> bool
    decreases ty,
{
    ty == part || match ty {
        Ty::Nominal { def: _, args } => occurs_among(*args, part),
        Ty::Ptr { mutable: _, inner } => occurs_within(*inner, part),
        Ty::Slice { mutable: _, inner } => occurs_within(*inner, part),
        Ty::Array { len: _, mutable: _, inner } => occurs_within(*inner, part),
        Ty::Tuple(elems) => occurs_among(*elems, part),
        Ty::Dyn { def: _, assoc } => occurs_among_named(*assoc, part),
        Ty::Struct(fields) => occurs_among_named(*fields, part),
        Ty::Func { params, ret, c: _ } => occurs_among(*params, part) || occurs_within(*ret, part),
        _ => false,
    }
}

/// Whether a type occurs in any of a list.
pub open spec fn occurs_among(l: List<Ty>, part: Ty) -> bool
    decreases l,
{
    match l {
        List::Nil => false,
        List::Cons(h, t) => occurs_within(h, part) || occurs_among(*t, part),
    }
}

/// Whether a type occurs in any of a list of named types.
pub open spec fn occurs_among_named(l: List<(Symbol, Ty)>, part: Ty) -> bool
    decreases l,
{
    match l {
        List::Nil => false,
        List::Cons(h, t) => occurs_within(h.1, part) || occurs_among_named(*t, part),
    }
}

/// Rebinding a type leaves no occurrence of it, where neither it nor what takes its
/// place occurs in the other; and what changed at all holds what took its place.
pub proof fn rebinding_leaves_no_occurrence(ty: Ty, from: Ty, to: Ty)
    requires
        !occurs_within(to, from),
        !occurs_within(from, to),
    ensures
        !occurs_within(crate::subst::rebind_ty_spec(&ty, &from, &to), from),
        crate::subst::rebind_ty_spec(&ty, &from, &to) == ty || occurs_within(
            crate::subst::rebind_ty_spec(&ty, &from, &to),
            to,
        ),
    decreases ty,
{
    if ty != from {
        match ty {
            Ty::Nominal { def: _, args } => rebinding_a_list_leaves_no_occurrence(*args, from, to),
            Ty::Ptr { mutable: _, inner } => rebinding_leaves_no_occurrence(*inner, from, to),
            Ty::Slice { mutable: _, inner } => rebinding_leaves_no_occurrence(*inner, from, to),
            Ty::Array { len: _, mutable: _, inner } => rebinding_leaves_no_occurrence(*inner, from, to),
            Ty::Tuple(elems) => rebinding_a_list_leaves_no_occurrence(*elems, from, to),
            Ty::Dyn { def: _, assoc } => rebinding_named_leaves_no_occurrence(*assoc, from, to),
            Ty::Struct(fields) => rebinding_named_leaves_no_occurrence(*fields, from, to),
            Ty::Func { params, ret, c: _ } => {
                rebinding_a_list_leaves_no_occurrence(*params, from, to);
                rebinding_leaves_no_occurrence(*ret, from, to);
            },
            _ => {},
        }
    }
}

proof fn rebinding_a_list_leaves_no_occurrence(l: List<Ty>, from: Ty, to: Ty)
    requires
        !occurs_within(to, from),
        !occurs_within(from, to),
    ensures
        !occurs_among(crate::subst::rebind_tys_spec(&l, &from, &to), from),
        crate::subst::rebind_tys_spec(&l, &from, &to) == l || occurs_among(
            crate::subst::rebind_tys_spec(&l, &from, &to),
            to,
        ),
    decreases l,
{
    match l {
        List::Nil => {},
        List::Cons(h, t) => {
            rebinding_leaves_no_occurrence(h, from, to);
            rebinding_a_list_leaves_no_occurrence(*t, from, to);
        },
    }
}

proof fn rebinding_named_leaves_no_occurrence(l: List<(Symbol, Ty)>, from: Ty, to: Ty)
    requires
        !occurs_within(to, from),
        !occurs_within(from, to),
    ensures
        !occurs_among_named(crate::subst::rebind_named_spec(&l, &from, &to), from),
        crate::subst::rebind_named_spec(&l, &from, &to) == l || occurs_among_named(
            crate::subst::rebind_named_spec(&l, &from, &to),
            to,
        ),
    decreases l,
{
    match l {
        List::Nil => {},
        List::Cons(h, t) => {
            rebinding_leaves_no_occurrence(h.1, from, to);
            rebinding_named_leaves_no_occurrence(*t, from, to);
        },
    }
}

// Widening.

/// The range of an integer type.
pub open spec fn holds(parts: (bool, u64), v: int) -> bool {
    if parts.0 {
        -(pow2((parts.1 - 1) as nat) as int) <= v < pow2((parts.1 - 1) as nat)
    } else {
        0 <= v < pow2(parts.1 as nat)
    }
}

/// One integer widens to another exactly when the other is wider and holds every
/// value it holds.
pub proof fn widening_keeps_every_value(from: (bool, u64), to: (bool, u64))
    requires
        1 <= from.1,
        1 <= to.1,
    ensures
        crate::subst::int_widens_spec(from, to) <==> from.1 < to.1 && (forall|v: int|
            #[trigger] holds(from, v) ==> holds(to, v)),
{
    if from.1 < to.1 {
        lemma_pow2_strictly_increases((from.1 - 1) as nat, (to.1 - 1) as nat);
        lemma_pow2_strictly_increases(from.1 as nat, to.1 as nat);
        lemma_pow2_pos((from.1 - 1) as nat);
        if from.1 < to.1 - 1 {
            lemma_pow2_strictly_increases(from.1 as nat, (to.1 - 1) as nat);
        }
        if from.0 && !to.0 {
            // The smaller one holds -1, and the larger does not.
            assert(holds(from, -1));
            assert(!holds(to, -1));
        }
    }
}

/// A literal fits an integer type exactly when its value is in the type's range.
pub proof fn fitting_is_being_in_range(x: Int, parts: (bool, u64))
    requires
        1 <= parts.1 <= 65535,
    ensures
        crate::bigint::int_fits_spec(&x, parts.0, parts.1) <==> holds(parts, x.value()),
{
}

/// A number that fits a float type fits every wider one.
pub proof fn a_wider_float_holds_what_a_narrower_one_does(bits: u64)
    ensures
        crate::bodies::float_fits_spec(bits, FloatWidth::F16) ==> crate::bodies::float_fits_spec(
            bits,
            FloatWidth::F32,
        ),
        crate::bodies::float_fits_spec(bits, FloatWidth::F32) ==> crate::bodies::float_fits_spec(
            bits,
            FloatWidth::F64,
        ),
        crate::bodies::float_fits_spec(bits, FloatWidth::F64) ==> crate::bodies::float_fits_spec(
            bits,
            FloatWidth::F128,
        ),
{
}

/// What C promotes a type to, it promotes no further.
pub proof fn promotion_is_done_once(ty: Ty)
    ensures
        match crate::calls::c_promotion_spec(&ty) {
            Some(to) => crate::calls::c_promotion_spec(&to) == None::<Ty>,
            None => true,
        },
{
}

// Settled types.

/// A settled type is not changed by what is solved.
pub proof fn resolving_a_settled_type_changes_nothing(st: InfererV, ty: Ty, fuel: u64)
    requires
        settled(&ty),
    ensures
        crate::unify::resolve_spec(st, &ty, fuel) == ty,
    decreases fuel,
{
    if fuel > 0 {
        let less = (fuel - 1) as u64;
        match ty {
            Ty::Int { signed: _, width } => a_settled_value_stands(st, width, less),
            Ty::Nominal { def: _, args } => resolving_settled_types_changes_nothing(st, *args, less),
            Ty::Ptr { mutable: _, inner } => resolving_a_settled_type_changes_nothing(st, *inner, less),
            Ty::Slice { mutable: _, inner } => resolving_a_settled_type_changes_nothing(st, *inner, less),
            Ty::Array { len, mutable: _, inner } => {
                a_settled_value_stands(st, len, less);
                resolving_a_settled_type_changes_nothing(st, *inner, less);
            },
            Ty::Tuple(elems) => resolving_settled_types_changes_nothing(st, *elems, less),
            Ty::Dyn { def: _, assoc } => resolving_settled_named_changes_nothing(st, *assoc, less),
            Ty::Struct(fields) => resolving_settled_named_changes_nothing(st, *fields, less),
            Ty::Func { params, ret, c: _ } => {
                resolving_settled_types_changes_nothing(st, *params, less);
                resolving_a_settled_type_changes_nothing(st, *ret, less);
            },
            _ => {},
        }
    }
}

proof fn a_settled_value_stands(st: InfererV, c: Const, fuel: u64)
    requires
        !crate::subst::const_mentions_spec(&c, Mention::Var),
    ensures
        crate::unify::shallow_const_spec(st, &c, fuel) == c,
{
}

proof fn resolving_settled_types_changes_nothing(st: InfererV, l: List<Ty>, fuel: u64)
    requires
        all_settled(&l),
    ensures
        crate::unify::resolve_tys_spec(st, &l, fuel) == l,
    decreases fuel, l,
{
    if fuel > 0 {
        match l {
            List::Nil => {},
            List::Cons(h, t) => {
                resolving_a_settled_type_changes_nothing(st, h, (fuel - 1) as u64);
                resolving_settled_types_changes_nothing(st, *t, fuel);
            },
        }
    }
}

proof fn resolving_settled_named_changes_nothing(st: InfererV, l: List<(Symbol, Ty)>, fuel: u64)
    requires
        !crate::subst::any_named_mentions_spec(&l, Mention::Var),
    ensures
        crate::unify::resolve_named_spec(st, &l, fuel) == l,
    decreases fuel, l,
{
    if fuel > 0 {
        match l {
            List::Nil => {},
            List::Cons(h, t) => {
                resolving_a_settled_type_changes_nothing(st, h.1, (fuel - 1) as u64);
                resolving_settled_named_changes_nothing(st, *t, fuel);
            },
        }
    }
}

/// Whether nothing changed, unless something nested too deeply was given up on.
pub open spec fn same_or_deeper(before: InfererV, after: InfererV) -> bool {
    after == (InfererV { deep: after.deep, ..before })
}

/// A settled type agrees with itself, and finding that out solves nothing.
pub proof fn a_settled_type_agrees_with_itself(st: InfererV, ty: Ty, fuel: u64)
    requires
        settled(&ty),
    ensures
        same_or_deeper(st, crate::unify::unify_spec(st, &ty, &ty, fuel).0),
        crate::unify::unify_spec(st, &ty, &ty, fuel).1 is None,
    decreases fuel,
{
    if fuel > 0 {
        let less = (fuel - 1) as u64;
        match ty {
            Ty::Int { signed: _, width } => a_settled_value_agrees_with_itself(st, width),
            Ty::Nominal { def: _, args } => settled_types_agree_with_themselves(st, *args, less),
            Ty::Ptr { mutable: _, inner } => a_settled_type_agrees_with_itself(st, *inner, less),
            Ty::Slice { mutable: _, inner } => a_settled_type_agrees_with_itself(st, *inner, less),
            Ty::Array { len, mutable: _, inner } => {
                a_settled_value_agrees_with_itself(st, len);
                a_settled_type_agrees_with_itself(st, *inner, less);
            },
            Ty::Tuple(elems) => settled_types_agree_with_themselves(st, *elems, less),
            Ty::Dyn { def: _, assoc } => {
                names_are_their_own(*assoc);
                settled_named_agree_with_themselves(st, *assoc, less);
            },
            Ty::Struct(fields) => {
                names_are_their_own(*fields);
                settled_named_agree_with_themselves(st, *fields, less);
            },
            Ty::Func { params, ret, c: _ } => {
                settled_types_agree_with_themselves(st, *params, less);
                let after = crate::unify::unify_tys_spec(st, &*params, &*params, less).0;
                a_settled_type_agrees_with_itself(after, *ret, less);
            },
            _ => {},
        }
    }
}

proof fn a_settled_value_agrees_with_itself(st: InfererV, c: Const)
    requires
        !crate::subst::const_mentions_spec(&c, Mention::Var),
    ensures
        crate::unify::unify_const_spec(st, &c, &c) == (st, true),
{
    a_settled_value_stands(st, c, crate::list::DEPTH_LIMIT);
}

proof fn settled_types_agree_with_themselves(st: InfererV, l: List<Ty>, fuel: u64)
    requires
        all_settled(&l),
    ensures
        same_or_deeper(st, crate::unify::unify_tys_spec(st, &l, &l, fuel).0),
        crate::unify::unify_tys_spec(st, &l, &l, fuel).1 is None,
    decreases fuel, l,
{
    if fuel > 0 {
        match l {
            List::Nil => {},
            List::Cons(h, t) => {
                a_settled_type_agrees_with_itself(st, h, (fuel - 1) as u64);
                let after = crate::unify::unify_spec(st, &h, &h, (fuel - 1) as u64).0;
                settled_types_agree_with_themselves(after, *t, fuel);
            },
        }
    }
}

proof fn names_are_their_own(l: List<(Symbol, Ty)>)
    ensures
        crate::unify::same_names_spec(&l, &l),
    decreases l,
{
    match l {
        List::Nil => {},
        List::Cons(_, t) => names_are_their_own(*t),
    }
}

proof fn settled_named_agree_with_themselves(st: InfererV, l: List<(Symbol, Ty)>, fuel: u64)
    requires
        !crate::subst::any_named_mentions_spec(&l, Mention::Var),
    ensures
        same_or_deeper(st, crate::unify::unify_named_spec(st, &l, &l, fuel).0),
        crate::unify::unify_named_spec(st, &l, &l, fuel).1 is None,
    decreases fuel, l,
{
    if fuel > 0 {
        match l {
            List::Nil => {},
            List::Cons(h, t) => {
                a_settled_type_agrees_with_itself(st, h.1, (fuel - 1) as u64);
                let after = crate::unify::unify_spec(st, &h.1, &h.1, (fuel - 1) as u64).0;
                settled_named_agree_with_themselves(after, *t, fuel);
            },
        }
    }
}

// The order of names.

/// Whether names come one after the other, none before the one in front of it.
pub open spec fn in_order(l: &List<(Symbol, DefId)>) -> bool
    decreases l,
{
    match l {
        List::Nil => true,
        List::Cons(h, t) => (match **t {
            List::Nil => true,
            List::Cons(n, _) => !crate::symbol::text_before_spec(&n.0.text, &h.0.text),
        }) && in_order(t),
    }
}

/// Sorting members by name puts them in order.
pub proof fn sorting_puts_in_order(l: List<(Symbol, DefId)>)
    ensures
        in_order(&crate::subst::sort_by_name_spec(l)),
    decreases l,
{
    match l {
        List::Nil => {},
        List::Cons(h, t) => {
            sorting_puts_in_order(*t);
            inserting_keeps_order(h.0, h.1, crate::subst::sort_by_name_spec(*t));
        },
    }
}

proof fn before_is_one_way(a: List<char>, b: List<char>)
    ensures
        crate::symbol::text_before_spec(&a, &b) ==> !crate::symbol::text_before_spec(&b, &a),
    decreases a,
{
    match (a, b) {
        (List::Cons(_, s), List::Cons(_, t)) => before_is_one_way(*s, *t),
        _ => {},
    }
}

proof fn before_is_total(a: List<char>, b: List<char>)
    ensures
        a == b || crate::symbol::text_before_spec(&a, &b) || crate::symbol::text_before_spec(&b, &a),
    decreases a,
{
    match (a, b) {
        (List::Cons(_, s), List::Cons(_, t)) => before_is_total(*s, *t),
        _ => {},
    }
}

proof fn before_goes_on(a: List<char>, b: List<char>, c: List<char>)
    requires
        crate::symbol::text_before_spec(&a, &b),
        crate::symbol::text_before_spec(&b, &c),
    ensures
        crate::symbol::text_before_spec(&a, &c),
    decreases a,
{
    match (a, b, c) {
        (List::Cons(x, s), List::Cons(y, t), List::Cons(z, u)) => {
            if x == y && y == z {
                before_goes_on(*s, *t, *u);
            }
        },
        _ => {},
    }
}

proof fn before_all(a: List<char>, b: List<char>, c: List<char>)
    ensures
        crate::symbol::text_before_spec(&a, &b) && crate::symbol::text_before_spec(&b, &c)
            ==> crate::symbol::text_before_spec(&a, &c),
{
    if crate::symbol::text_before_spec(&a, &b) && crate::symbol::text_before_spec(&b, &c) {
        before_goes_on(a, b, c);
    }
}

proof fn inserting_either_first_is_the_same(a: (Symbol, Ty), b: (Symbol, Ty), l: List<(Symbol, Ty)>)
    requires
        a.0.text != b.0.text,
    ensures
        crate::subst::insert_named_spec(a.0, a.1, crate::subst::insert_named_spec(b.0, b.1, l))
            == crate::subst::insert_named_spec(b.0, b.1, crate::subst::insert_named_spec(a.0, a.1, l)),
    decreases l,
{
    reveal_with_fuel(crate::subst::insert_named_spec, 3);
    before_is_total(a.0.text, b.0.text);
    before_is_one_way(a.0.text, b.0.text);
    match l {
        List::Nil => {},
        List::Cons(h, t) => {
            inserting_either_first_is_the_same(a, b, *t);
            before_is_total(h.0.text, a.0.text);
            before_is_total(h.0.text, b.0.text);
            before_all(a.0.text, h.0.text, b.0.text);
            before_all(b.0.text, h.0.text, a.0.text);
        },
    }
}

/// A list without the element at a position.
pub open spec fn without<T>(l: List<T>, k: int) -> List<T>
    decreases l,
{
    match l {
        List::Nil => List::Nil,
        List::Cons(h, t) => if k == 0 {
            *t
        } else {
            List::Cons(h, Box::new(without(*t, k - 1)))
        },
    }
}

proof fn without_is_removing<T>(l: List<T>, k: int)
    requires
        0 <= k < l@.len(),
    ensures
        without(l, k)@ == l@.remove(k),
    decreases l,
{
    match l {
        List::Nil => {},
        List::Cons(h, t) => {
            assert(l@ =~= seq![h] + t@);
            if k > 0 {
                without_is_removing(*t, k - 1);
                assert(without(l, k)@ =~= seq![h] + without(*t, k - 1)@);
            }
            assert(without(l, k)@ =~= l@.remove(k));
        },
    }
}

/// Whether no two of some named types have the same name.
pub open spec fn names_apart(s: Seq<(Symbol, Ty)>) -> bool {
    forall|i: int, j: int| 0 <= i < j < s.len() ==> (#[trigger] s[i]).0.text != (#[trigger] s[j]).0.text
}

proof fn any_may_be_sorted_in_last(l: List<(Symbol, Ty)>, k: int)
    requires
        0 <= k < l@.len(),
        names_apart(l@),
    ensures
        crate::subst::sort_named_spec(l) == crate::subst::insert_named_spec(
            l@[k].0,
            l@[k].1,
            crate::subst::sort_named_spec(without(l, k)),
        ),
    decreases l,
{
    match l {
        List::Nil => {},
        List::Cons(h, t) => {
            assert(l@ =~= seq![h] + t@);
            if k > 0 {
                assert(l@[0] == h && l@[k] == t@[k - 1]);
                assert forall|i: int, j: int| 0 <= i < j < t@.len() implies (#[trigger] t@[i]).0.text
                    != (#[trigger] t@[j]).0.text by {
                    assert(l@[i + 1] == t@[i] && l@[j + 1] == t@[j]);
                }
                any_may_be_sorted_in_last(*t, k - 1);
                inserting_either_first_is_the_same(
                    h,
                    t@[k - 1],
                    crate::subst::sort_named_spec(without(*t, k - 1)),
                );
                assert(without(l, k) == List::Cons(h, Box::new(without(*t, k - 1))));
            }
        },
    }
}

/// The order in which named types are written does not matter once they are
/// sorted: the same ones come out the same.
pub proof fn writing_order_does_not_matter(x: List<(Symbol, Ty)>, y: List<(Symbol, Ty)>)
    requires
        x@.to_multiset() == y@.to_multiset(),
        names_apart(x@),
        names_apart(y@),
    ensures
        crate::subst::sort_named_spec(x) == crate::subst::sort_named_spec(y),
    decreases x,
{
    x@.to_multiset_ensures();
    y@.to_multiset_ensures();
    match x {
        List::Nil => {
            assert(x@.len() == 0);
            match y {
                List::Nil => {},
                List::Cons(h, t) => {
                    assert(y@ =~= seq![h] + t@);
                },
            }
        },
        List::Cons(h, t) => {
            assert(x@ =~= seq![h] + t@);
            assert(x@[0] == h);
            assert(x@.contains(h));
            assert(y@.to_multiset().count(h) > 0);
            assert(y@.contains(h));
            let k = choose|k: int| 0 <= k < y@.len() && y@[k] == h;
            without_is_removing(y, k);
            assert(x@.remove(0) =~= t@);
            assert(t@.to_multiset() == without(y, k)@.to_multiset());
            assert forall|i: int, j: int| 0 <= i < j < t@.len() implies (#[trigger] t@[i]).0.text
                != (#[trigger] t@[j]).0.text by {
                assert(x@[i + 1] == t@[i] && x@[j + 1] == t@[j]);
            }
            assert forall|i: int, j: int| 0 <= i < j < without(y, k)@.len() implies (#[trigger] without(y, k)@[i]).0.text
                != (#[trigger] without(y, k)@[j]).0.text by {
                let p = if i < k { i } else { i + 1 };
                let q = if j < k { j } else { j + 1 };
                assert(y@[p] == without(y, k)@[i] && y@[q] == without(y, k)@[j]);
            }
            writing_order_does_not_matter(*t, without(y, k));
            any_may_be_sorted_in_last(y, k);
        },
    }
}

/// Two trait objects of one trait that pin the same types are the same type, in
/// whichever order the pins were written.
pub proof fn a_trait_object_does_not_depend_on_the_order_of_its_pins(
    st: InfererV,
    env: &crate::unify::InferCx,
    file: crate::ids::FileId,
    a: crate::ids::NodeId,
    b: crate::ids::NodeId,
    inner_a: crate::ids::NodeId,
    inner_b: crate::ids::NodeId,
    path_a: crate::ids::NodeId,
    path_b: crate::ids::NodeId,
    args_a: List<crate::ids::NodeId>,
    args_b: List<crate::ids::NodeId>,
    fuel: u64,
)
    requires
        fuel > 0,
        crate::def::kind_of_spec(env.tables, file, a) == Some(&crate::ast::NodeKind::DynType { inner: inner_a }),
        crate::def::kind_of_spec(env.tables, file, b) == Some(&crate::ast::NodeKind::DynType { inner: inner_b }),
        crate::def::kind_of_spec(env.tables, file, inner_a) == Some(
            &crate::ast::NodeKind::TypePath { path: path_a, generic_args: args_a },
        ),
        crate::def::kind_of_spec(env.tables, file, inner_b) == Some(
            &crate::ast::NodeKind::TypePath { path: path_b, generic_args: args_b },
        ),
        crate::decls::resolved_def_in_spec(st, env, file, inner_a) == crate::decls::resolved_def_in_spec(
            st,
            env,
            file,
            inner_b,
        ),
        ({
            let pins_a = crate::types::dyn_pins_spec(st, env, file, &args_a, (fuel - 1) as u64).1@;
            let pins_b = crate::types::dyn_pins_spec(st, env, file, &args_b, (fuel - 1) as u64).1@;
            pins_a.to_multiset() == pins_b.to_multiset() && names_apart(pins_a) && names_apart(pins_b)
        }),
    ensures
        crate::types::ty_from_node_in_spec(st, env, file, a, fuel).1
            == crate::types::ty_from_node_in_spec(st, env, file, b, fuel).1,
{
    writing_order_does_not_matter(
        crate::types::dyn_pins_spec(st, env, file, &args_a, (fuel - 1) as u64).1,
        crate::types::dyn_pins_spec(st, env, file, &args_b, (fuel - 1) as u64).1,
    );
}

proof fn inserting_keeps_order(n: Symbol, d: DefId, l: List<(Symbol, DefId)>)
    requires
        in_order(&l),
    ensures
        in_order(&crate::subst::insert_by_name_spec(n, d, l)),
    decreases l,
{
    match l {
        List::Nil => {
            reveal_with_fuel(in_order, 2);
        },
        List::Cons(h, t) => {
            before_is_one_way(h.0.text, n.text);
            if crate::symbol::text_before_spec(&h.0.text, &n.text) {
                inserting_keeps_order(n, d, *t);
                match *t {
                    List::Nil => {},
                    List::Cons(_, _) => {},
                }
            }
        },
    }
}

/// Sorting members by name loses none and adds none.
pub proof fn sorting_keeps_the_members(l: List<(Symbol, DefId)>)
    ensures
        crate::subst::sort_by_name_spec(l)@.to_multiset() == l@.to_multiset(),
    decreases l,
{
    broadcast use vstd::seq_lib::group_to_multiset_ensures;

    match l {
        List::Nil => {},
        List::Cons(h, t) => {
            sorting_keeps_the_members(*t);
            inserting_adds_one(h.0, h.1, crate::subst::sort_by_name_spec(*t));
            vstd::seq_lib::lemma_multiset_commutative(seq![h], t@);
            lemma_one(h);
        },
    }
}

proof fn lemma_one<T>(x: T)
    ensures
        seq![x].to_multiset() == vstd::multiset::Multiset::<T>::singleton(x),
{
    broadcast use vstd::seq_lib::group_to_multiset_ensures;

    assert(seq![x] =~= Seq::<T>::empty().push(x));
    assert(seq![x].to_multiset() =~= vstd::multiset::Multiset::<T>::singleton(x));
}

proof fn inserting_adds_one(n: Symbol, d: DefId, l: List<(Symbol, DefId)>)
    ensures
        crate::subst::insert_by_name_spec(n, d, l)@.to_multiset() == l@.to_multiset().insert((n, d)),
    decreases l,
{
    broadcast use vstd::seq_lib::group_to_multiset_ensures;

    match l {
        List::Nil => {
            reveal_with_fuel(crate::list::list_seq, 2);
            lemma_one((n, d));
            assert(crate::subst::insert_by_name_spec(n, d, l)@ =~= seq![(n, d)]);
            assert(l@ =~= Seq::<(Symbol, DefId)>::empty());
            assert(seq![(n, d)].to_multiset() =~= l@.to_multiset().insert((n, d)));
        },
        List::Cons(h, t) => {
            lemma_one(h);
            lemma_one((n, d));
            if crate::symbol::text_before_spec(&h.0.text, &n.text) {
                inserting_adds_one(n, d, *t);
                let rest = crate::subst::insert_by_name_spec(n, d, *t);
                vstd::seq_lib::lemma_multiset_commutative(seq![h], rest@);
                vstd::seq_lib::lemma_multiset_commutative(seq![h], t@);
                assert(crate::subst::insert_by_name_spec(n, d, l)@.to_multiset() =~= l@.to_multiset().insert((n, d)));
            } else {
                vstd::seq_lib::lemma_multiset_commutative(seq![(n, d)], l@);
                assert(crate::subst::insert_by_name_spec(n, d, l)@ =~= seq![(n, d)] + l@);
                assert(crate::subst::insert_by_name_spec(n, d, l)@.to_multiset() =~= l@.to_multiset().insert((n, d)));
            }
        },
    }
}

} // verus!
