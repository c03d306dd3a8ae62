//! Laws of what positions demand of values, and of what is complained about.

use vstd::prelude::*;

use crate::def::DefKind;
use crate::diag::Part;
use crate::facts::Coercion;
use crate::ids::{FileId, NodeId};
use crate::laws::agreement::{fits, lengths_fit, reach, settled_types_agree_when_one_fits};
use crate::laws::types::{
    a_settled_type_agrees_with_itself, resolving_a_settled_type_changes_nothing, same_or_deeper,
};
use crate::list::List;
use crate::symbol::Symbol;
use crate::ty::Ty;
use crate::unify::{settled, InferCx, InfererV};

verus! {

/// A value of a settled type may always stand where that type is wanted: nothing
/// is said, and nothing is solved.
pub proof fn a_value_may_stand_where_its_type_is_wanted(
    st: InfererV,
    env: &InferCx,
    node: NodeId,
    ty: Ty,
    fuel: u64,
)
    requires
        settled(&ty),
    ensures
        same_or_deeper(st, crate::coerce::expect_spec(st, env, node, &ty, &ty, fuel)),
{
    if fuel > 0 {
        resolving_a_settled_type_changes_nothing(st, ty, crate::list::DEPTH_LIMIT);
        a_settled_type_agrees_with_itself(st, ty, (fuel - 1) as u64);
    }
}

/// A value that fits is accepted as it is: nothing is said, and nothing is
/// solved.
pub proof fn a_fitting_value_is_accepted(
    st: InfererV,
    env: &InferCx,
    node: NodeId,
    actual: Ty,
    expected: Ty,
    fuel: u64,
)
    requires
        settled(&actual),
        settled(&expected),
        lengths_fit(actual),
        lengths_fit(expected),
        reach(actual) < fuel,
        fits(actual, expected),
        expected == Ty::Never ==> actual == Ty::Never || actual == Ty::Error,
    ensures
        crate::coerce::expect_spec(st, env, node, &actual, &expected, fuel) == st,
{
    let less = (fuel - 1) as u64;
    resolving_a_settled_type_changes_nothing(st, actual, crate::list::DEPTH_LIMIT);
    resolving_a_settled_type_changes_nothing(st, expected, crate::list::DEPTH_LIMIT);
    settled_types_agree_when_one_fits(st, actual, expected, less);
}

/// A narrower integer that may stand where a wider one is wanted is converted,
/// and the conversion is recorded at its node.
pub proof fn a_narrower_integer_is_converted(
    st: InfererV,
    env: &InferCx,
    node: NodeId,
    actual: Ty,
    expected: Ty,
    from: (bool, u64),
    to: (bool, u64),
    fuel: u64,
)
    requires
        settled(&actual),
        settled(&expected),
        crate::subst::int_parts_spec(&actual) == Some(from),
        crate::subst::int_parts_spec(&expected) == Some(to),
        crate::subst::int_widens_spec(from, to),
        fuel > 2,
    ensures
        crate::coerce::expect_spec(st, env, node, &actual, &expected, fuel) == crate::unify::set_coercion_spec(
            st,
            st.file,
            node,
            Coercion { to: expected },
        ),
{
    let less = (fuel - 1) as u64;
    resolving_a_settled_type_changes_nothing(st, actual, crate::list::DEPTH_LIMIT);
    resolving_a_settled_type_changes_nothing(st, expected, crate::list::DEPTH_LIMIT);
    settled_types_agree_when_one_fits(st, actual, expected, less);
    a_settled_type_agrees_with_itself(st, expected, crate::list::DEPTH_LIMIT);
    assert(crate::unify::rollback_spec(st, crate::unify::snapshot_spec(st)) == st);
}

/// An integer that does not fit and does not widen is complained about, and
/// nothing else happens: no conversion loses a value silently.
pub proof fn no_integer_is_narrowed(
    st: InfererV,
    env: &InferCx,
    node: NodeId,
    actual: Ty,
    expected: Ty,
    from: (bool, u64),
    to: (bool, u64),
    fuel: u64,
)
    requires
        settled(&actual),
        settled(&expected),
        crate::subst::int_parts_spec(&actual) == Some(from),
        crate::subst::int_parts_spec(&expected) == Some(to),
        from != to,
        !crate::subst::int_widens_spec(from, to),
        fuel > 3,
    ensures
        ({
            let after = crate::coerce::expect_spec(st, env, node, &actual, &expected, fuel);
            &&& after == (InfererV { diags: after.diags, ..st })
            &&& after.diags.len() == st.diags.len() + 1
        }),
{
    let less = (fuel - 1) as u64;
    resolving_a_settled_type_changes_nothing(st, actual, crate::list::DEPTH_LIMIT);
    resolving_a_settled_type_changes_nothing(st, expected, crate::list::DEPTH_LIMIT);
    settled_types_agree_when_one_fits(st, actual, expected, less);
    assert(crate::unify::rollback_spec(st, crate::unify::snapshot_spec(st)) == st);
}

proof fn a_found_name_is_among(fields: List<(Symbol, Ty)>, name: Symbol)
    requires
        crate::ty::find_named_spec(&fields, &name) is Some,
    ensures
        exists|j: int| 0 <= j < fields@.len() && #[trigger] fields@[j].0 == name,
    decreases fields,
{
    match fields {
        List::Nil => {},
        List::Cons(h, t) => {
            if h.0 == name {
                assert(fields@[0].0 == name);
            } else {
                a_found_name_is_among(*t, name);
                let j = choose|j: int| 0 <= j < t@.len() && #[trigger] t@[j].0 == name;
                assert(fields@[j + 1] == t@[j]);
            }
        },
    }
}

/// Whether every name is that of a field.
pub open spec fn names_among(names: Seq<Symbol>, fields: Seq<(Symbol, Ty)>) -> bool {
    forall|i: int|
        0 <= i < names.len() ==> exists|j: int|
            0 <= j < fields.len() && fields[j].0 == #[trigger] names[i]
}

proof fn all_named_are_among(l: List<Symbol>, fields: List<(Symbol, Ty)>)
    requires
        crate::coerce::all_named_spec(&l, &fields),
    ensures
        names_among(l@, fields@),
    decreases l,
{
    match l {
        List::Nil => {},
        List::Cons(h, t) => {
            a_found_name_is_among(fields, h);
            all_named_are_among(*t, fields);
            assert forall|i: int| 0 <= i < l@.len() implies exists|j: int|
                0 <= j < fields@.len() && fields@[j].0 == #[trigger] l@[i] by {
                if i > 0 {
                    assert(l@[i] == t@[i - 1]);
                }
            }
        },
    }
}

/// Only an anonymous struct becomes another struct without being cast: what it
/// becomes is a named one, and each of that one's fields is among its own.
pub proof fn only_an_anonymous_struct_becomes_a_named_one(
    st: InfererV,
    env: &InferCx,
    node: NodeId,
    actual: Ty,
    expected: Ty,
    fuel: u64,
)
    requires
        settled(&actual),
        settled(&expected),
        crate::coerce::try_anon_to_named_spec(st, env, node, &actual, &expected, fuel).1,
    ensures
        match (actual, expected) {
            (Ty::Struct(fields), Ty::Nominal { def, args: _ }) => {
                let declared = crate::lower::record_field_names_spec(env.tables, def);
                &&& crate::def::def_kind_spec(env.tables, def) == DefKind::Struct
                &&& crate::list::list_len_spec(&declared) == crate::list::list_len_spec(&fields)
                &&& names_among(declared@, (*fields)@)
            },
            _ => false,
        },
{
    let limit = crate::list::DEPTH_LIMIT;
    assert(crate::unify::shallow_spec(st, &actual, limit) == actual);
    assert(crate::unify::shallow_spec(st, &expected, limit) == expected);
    match (actual, expected) {
        (Ty::Struct(fields), Ty::Nominal { def, args: _ }) => {
            all_named_are_among(crate::lower::record_field_names_spec(env.tables, def), *fields);
        },
        _ => {},
    }
}

/// Nothing converts to `never`: a value of a settled type that is neither `never`
/// nor an error is complained about once, and that is all that happens.
pub proof fn nothing_becomes_never(st: InfererV, env: &InferCx, node: NodeId, ty: Ty, fuel: u64)
    requires
        settled(&ty),
        ty != Ty::Never,
        ty != Ty::Error,
        fuel > 0,
    ensures
        ({
            let after = crate::coerce::expect_spec(st, env, node, &ty, &Ty::Never, fuel);
            &&& after == (InfererV { diags: after.diags, ..st })
            &&& after.diags.len() == st.diags.len() + 1
            &&& after.diags.last().file == st.file
            &&& after.diags.last().span == crate::def::span_of_spec(env.tables, st.file, node).1
        }),
{
    resolving_a_settled_type_changes_nothing(st, ty, crate::list::DEPTH_LIMIT);
    resolving_a_settled_type_changes_nothing(st, Ty::Never, crate::list::DEPTH_LIMIT);
}

/// `never` converts to everything: a value of that type is never complained
/// about, it solves nothing, and where no variable was wanted nothing happens.
pub proof fn never_becomes_anything(st: InfererV, env: &InferCx, node: NodeId, want: Ty, fuel: u64)
    ensures
        ({
            let after = crate::coerce::expect_spec(st, env, node, &Ty::Never, &want, fuel);
            &&& after.diags == st.diags
            &&& after == (InfererV { diverged: after.diverged, deep: after.deep, ..st })
            &&& settled(&want) ==> same_or_deeper(st, after)
        }),
{
    if fuel > 0 {
        if settled(&want) {
            resolving_a_settled_type_changes_nothing(st, want, crate::list::DEPTH_LIMIT);
        }
        resolving_a_settled_type_changes_nothing(st, Ty::Never, crate::list::DEPTH_LIMIT);
    }
}

/// A function declared to return `never` is not held to it here: whatever its
/// body is worth, nothing is said.
pub proof fn a_never_returning_function_is_not_complained_about(
    st: InfererV,
    env: &InferCx,
    node: NodeId,
    actual: Ty,
    fuel: u64,
)
    ensures
        crate::coerce::expect_return_spec(st, env, node, &actual, &Ty::Never, fuel).diags == st.diags,
{
    if fuel > 0 {
        resolving_a_settled_type_changes_nothing(st, Ty::Never, crate::list::DEPTH_LIMIT);
    }
}

/// A compile-time slot is complained about at most once: saying something about
/// it again changes nothing.
pub proof fn a_slot_is_complained_about_once(
    st: InfererV,
    env: &InferCx,
    file: FileId,
    node: NodeId,
    first: List<Part>,
    second: List<Part>,
)
    ensures
        ({
            let once = crate::unify::report_const_in_spec(st, env, file, node, first);
            crate::unify::report_const_in_spec(once, env, file, node, second) == once
        }),
{
}

/// A literal that fits the type it settled on is not complained about.
pub proof fn a_fitting_literal_is_not_complained_about(
    st: InfererV,
    env: &InferCx,
    node: NodeId,
    value: crate::bigint::Int,
    resolved: Ty,
    signed: bool,
    bits: u64,
)
    requires
        crate::unify::get_int_spec(st, node) == Some(value),
        crate::subst::int_parts_spec(&crate::unify::numeric_repr_spec(st, &resolved)) == Some((signed, bits)),
    ensures
        crate::bigint::int_fits_spec(&value, signed, bits) ==> crate::bodies::check_int_range_spec(
            st,
            env,
            node,
            &resolved,
        ) == st,
        !crate::bigint::int_fits_spec(&value, signed, bits) ==> {
            let after = crate::bodies::check_int_range_spec(st, env, node, &resolved);
            &&& after.diags.len() == st.diags.len() + 1
            &&& crate::unify::get_range_reported_spec(after, st.file, node) is Some
        },
{
}

} // verus!
