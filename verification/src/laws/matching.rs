//! Laws of conversions and of patterns: what may stand for what, what is recorded of
//! it, and what type each name of a pattern gets.

use vstd::prelude::*;

use crate::ast::{NodeKind, VariantPatArgs};
use crate::coerce::bind_pattern_spec;
use crate::ids::{DefId, NodeId};
use crate::laws::typing::{opens, written};
use crate::list::{List, DEPTH_LIMIT};
use crate::symbol::Symbol;
use crate::ty::{Const, Ty};
use crate::unify::{unify_spec, InferCx, InfererV};

verus! {

// Conversions.

/// A value meets a demand by the first conversion that can: widening, viewing an array
/// as a slice, unsizing, naming an anonymous struct, and an upcast. It meets none where
/// none can.
pub proof fn the_first_conversion_that_can_is_taken(
    st: InfererV,
    env: &InferCx,
    node: NodeId,
    actual: Ty,
    expected: Ty,
    fuel: u64,
)
    requires
        fuel > 0,
    ensures
        ({
            let less = (fuel - 1) as u64;
            let (a, widened) = crate::coerce::try_int_widen_spec(st, env, node, &actual, &expected);
            let (b, sliced) = crate::coerce::try_array_to_slice_spec(a, env, node, &actual, &expected);
            let (c, erased) = crate::coerce::try_dyn_coerce_spec(b, env, node, &actual, &expected, less);
            let (d, named) = crate::coerce::try_anon_to_named_spec(c, env, node, &actual, &expected, less);
            let (e, up) = crate::coerce::try_upcast_spec(d, env, node, &actual, &expected, less);
            let (after, r) = crate::coerce::try_coerce_spec(st, env, node, &actual, &expected, fuel);
            &&& r == (widened || sliced || erased || named || up)
            &&& after == if widened {
                a
            } else if sliced {
                b
            } else if erased {
                c
            } else if named {
                d
            } else {
                e
            }
        }),
{
}

/// An array may stand for a read-only slice of the same elements, which is recorded,
/// and for no slice that could be written through.
pub proof fn an_array_may_stand_for_a_read_only_slice(
    st: InfererV,
    env: &InferCx,
    node: NodeId,
    len: Const,
    mutable: bool,
    inner: Ty,
    writable: bool,
    want: Ty,
    range: DefId,
)
    requires
        crate::def::lang_def_spec(env.tables, "range") == Some(range),
    ensures
        ({
            let actual = Ty::Array { len: len, mutable: mutable, inner: Box::new(inner) };
            let expected = Ty::Slice { mutable: writable, inner: Box::new(want) };
            let (after, r) = crate::coerce::try_array_to_slice_spec(st, env, node, &actual, &expected);
            let (mid, clash) = unify_spec(st, &inner, &want, DEPTH_LIMIT);
            let key = crate::ids::node_key_spec(mid.file, node);
            &&& writable ==> !r && after == st
            &&& !writable ==> r == clash is None
            &&& r ==> {
                &&& after.facts.slice_coerce.dom().contains(key)
                &&& after.facts.slice_coerce[key].to == crate::unify::resolve_spec(mid, &expected, DEPTH_LIMIT)
            }
            &&& !r ==> after.bindings == st.bindings
        }),
{
    reveal_with_fuel(crate::unify::shallow_spec, 2);
}

/// Only an array becomes a slice.
pub proof fn only_an_array_becomes_a_slice(
    st: InfererV,
    env: &InferCx,
    node: NodeId,
    actual: Ty,
    expected: Ty,
)
    requires
        match crate::unify::shallow_spec(st, &actual, DEPTH_LIMIT) {
            Ty::Array { .. } => false,
            _ => true,
        },
    ensures
        crate::coerce::try_array_to_slice_spec(st, env, node, &actual, &expected) == (st, false),
{
}

/// A pointer may stand for one to a trait object where its pointee implements the
/// trait, or is a parameter bounded by it, and permission is not gained; which trait,
/// which object and what stood behind the pointer are recorded.
pub proof fn a_pointer_may_stand_for_a_trait_object(
    st: InfererV,
    env: &InferCx,
    node: NodeId,
    mutable: bool,
    concrete: Ty,
    writable: bool,
    trait_def: DefId,
    pins: List<(Symbol, Ty)>,
    fuel: u64,
)
    requires
        fuel > 0,
        match concrete {
            Ty::Var(_) => false,
            Ty::Error => false,
            _ => true,
        },
        crate::def::lang_def_spec(env.tables, "func") != Some(trait_def),
    ensures
        ({
            let object = Ty::Dyn { def: trait_def, assoc: Box::new(pins) };
            let actual = Ty::Ptr { mutable: mutable, inner: Box::new(concrete) };
            let expected = Ty::Ptr { mutable: writable, inner: Box::new(object) };
            let (after, r) = crate::coerce::try_dyn_coerce_spec(st, env, node, &actual, &expected, fuel);
            let (mid, found) = crate::solve::select_spec(
                st,
                env,
                &concrete,
                trait_def,
                &List::Nil,
                (fuel - 1) as u64,
            );
            let bounded = crate::types::param_has_bound_spec(st, env, &concrete, trait_def);
            let at = if bounded {
                st
            } else {
                mid
            };
            let key = crate::ids::node_key_spec(at.file, node);
            &&& writable && !mutable ==> !r && after == st
            &&& (!writable || mutable) ==> r == (bounded || found is Found)
            &&& r ==> {
                let kept = after.facts.dyn_coerce[key];
                &&& after.facts.dyn_coerce.dom().contains(key)
                &&& kept.trait_def == trait_def
                &&& kept.object == object
                &&& kept.concrete == concrete
            }
        }),
{
    reveal_with_fuel(crate::unify::shallow_spec, 2);
}

/// A struct may stand for the type of its `@using` field, and a pointer to one for a
/// pointer of the same permission to the field; which field, and whether it is reached
/// through a pointer, are recorded.
pub proof fn a_struct_may_stand_for_its_used_field(
    st: InfererV,
    env: &InferCx,
    node: NodeId,
    def: DefId,
    args: List<Ty>,
    ptr: Option<bool>,
    field: DefId,
    expected: Ty,
    fuel: u64,
)
    requires
        fuel > 0,
        crate::coerce::using_field_of_spec(env.tables, def) == Some(field),
    ensures
        ({
            let less = (fuel - 1) as u64;
            let own = Ty::Nominal { def: def, args: Box::new(args) };
            let actual = match ptr {
                Some(m) => Ty::Ptr { mutable: m, inner: Box::new(own) },
                None => own,
            };
            let name = crate::def::def_name_spec(env.tables, field);
            let (a, fty) = crate::types::field_ty_spec(st, env, &actual, &name, less);
            let (after, r) = crate::coerce::try_upcast_spec(st, env, node, &actual, &expected, fuel);
            match fty {
                None => !r && after == a,
                Some(t) => {
                    let target = match ptr {
                        Some(m) => Ty::Ptr { mutable: m, inner: Box::new(t) },
                        None => t,
                    };
                    let (b, clash) = unify_spec(a, &target, &expected, less);
                    let key = crate::ids::node_key_spec(b.file, node);
                    &&& r == clash is None
                    &&& r ==> {
                        let kept = after.facts.upcast[key];
                        &&& after.facts.upcast.dom().contains(key)
                        &&& kept.field == field
                        &&& kept.through_ptr == ptr is Some
                        &&& kept.target == target
                    }
                    &&& !r ==> after.bindings == a.bindings
                },
            }
        }),
{
    reveal_with_fuel(crate::unify::shallow_spec, 2);
}

// Patterns.

/// Whether a state is another in which one local has a type.
pub open spec fn gives(before: InfererV, after: InfererV, node: NodeId, ty: Ty) -> bool {
    match crate::decls::def_of_spec(before, node) {
        Some(d) => {
            &&& crate::unify::get_local_spec(after, d) == Some(ty)
            &&& after == (InfererV {
                locals: before.locals.insert(crate::ids::def_key_spec(d), ty),
                ..before
            })
        },
        None => after == before,
    }
}

/// Whether a type is no error, once everything known is put in.
pub open spec fn sound(st: InfererV, ty: Ty) -> bool {
    crate::unify::resolve_spec(st, &ty, DEPTH_LIMIT) != Ty::Error
}

/// A name in a pattern gets the type that is matched.
pub proof fn a_name_gets_what_is_matched(
    st: InfererV,
    env: &InferCx,
    pat: NodeId,
    ty: Ty,
    fuel: u64,
)
    requires
        fuel > 1,
        sound(st, ty),
    ensures
        ({
            let after = bind_pattern_spec(st, env, pat, &ty, fuel);
            match written(st, env, pat) {
                Some(NodeKind::BindingPat { .. }) => gives(st, after, pat, ty),
                Some(NodeKind::AtPat { name: _, pattern }) => exists|named: InfererV|
                    gives(st, named, pat, ty) && after == #[trigger] bind_pattern_spec(
                        named,
                        env,
                        pattern,
                        &ty,
                        (fuel - 1) as u64,
                    ),
                Some(NodeKind::WildcardPat) => after == st,
                Some(NodeKind::LitPat { .. }) => after == st,
                Some(NodeKind::RangePat { .. }) => after == st,
                _ => true,
            }
        }),
{
    match written(st, env, pat) {
        Some(NodeKind::AtPat { name: _, pattern }) => {
            let named = crate::coerce::bind_name_spec(st, pat, &ty);
            assert(gives(st, named, pat, ty));
            assert(bind_pattern_spec(st, env, pat, &ty, fuel) == bind_pattern_spec(
                named,
                env,
                pattern,
                &ty,
                (fuel - 1) as u64,
            ));
        },
        _ => {},
    }
}

/// The pattern behind a `&` is matched with what the pointer points at.
pub proof fn a_pointer_pattern_matches_the_pointee(
    st: InfererV,
    env: &InferCx,
    pat: NodeId,
    pattern: NodeId,
    ty: Ty,
    fuel: u64,
)
    requires
        fuel > 1,
        sound(st, ty),
        written(st, env, pat) == Some(NodeKind::RefPat { pattern: pattern }),
    ensures
        ({
            let less = (fuel - 1) as u64;
            let (a, inner) = crate::unify::fresh_spec(st);
            let pointer = Ty::Ptr { mutable: false, inner: Box::new(inner) };
            let b = unify_spec(a, &ty, &pointer, less).0;
            &&& opens(st, a, inner)
            &&& bind_pattern_spec(st, env, pat, &ty, fuel) == bind_pattern_spec(b, env, pattern, &inner, less)
        }),
{
}

/// Each element of a tuple pattern is matched with the element at its position: what
/// is matched is unified with a tuple of as many parts, and each pattern gets its own.
pub proof fn a_tuple_pattern_matches_part_by_part(
    st: InfererV,
    env: &InferCx,
    pat: NodeId,
    elems: List<NodeId>,
    ty: Ty,
    fuel: u64,
)
    requires
        fuel > 1,
        sound(st, ty),
        written(st, env, pat) == Some(NodeKind::TuplePat { elems: elems }),
    ensures
        ({
            let less = (fuel - 1) as u64;
            let (a, parts) = crate::unify::fresh_for_spec(st, &elems);
            let b = unify_spec(a, &ty, &Ty::Tuple(Box::new(parts)), less).0;
            &&& parts@.len() == elems@.len()
            &&& bind_pattern_spec(st, env, pat, &ty, fuel) == crate::coerce::bind_each_spec(
                b,
                env,
                &elems,
                &parts,
                0,
                less,
            )
        }),
{
    as_many_parts(st, elems);
}

proof fn as_many_parts(st: InfererV, l: List<NodeId>)
    ensures
        crate::unify::fresh_for_spec(st, &l).1@.len() == l@.len(),
    decreases l,
{
    match l {
        List::Nil => {},
        List::Cons(_, t) => as_many_parts(crate::unify::fresh_spec(st).0, *t),
    }
}

/// Patterns matched position by position: the one at a position gets the type at that
/// position, in order, none left out, and an open one past the types there are.
pub proof fn patterns_match_by_position(
    st: InfererV,
    env: &InferCx,
    p: NodeId,
    rest: List<NodeId>,
    tys: List<Ty>,
    i: u64,
    fuel: u64,
)
    requires
        fuel > 0,
    ensures
        ({
            let less = (fuel - 1) as u64;
            let next = crate::list::succ_spec(i);
            let all = crate::coerce::bind_each_spec(st, env, &List::Cons(p, Box::new(rest)), &tys, i, fuel);
            if i < tys@.len() {
                all == crate::coerce::bind_each_spec(
                    bind_pattern_spec(st, env, p, &tys@[i as int], less),
                    env,
                    &rest,
                    &tys,
                    next,
                    fuel,
                )
            } else {
                let (a, open) = crate::unify::fresh_spec(st);
                all == crate::coerce::bind_each_spec(
                    bind_pattern_spec(a, env, p, &open, less),
                    env,
                    &rest,
                    &tys,
                    next,
                    fuel,
                )
            }
        }),
        crate::coerce::bind_each_spec(st, env, &List::Nil, &tys, i, fuel) == st,
{
    crate::laws::fields::what_stands_at_a_position(tys, i);
}

/// Every alternative is matched with the same type, in order.
pub proof fn alternatives_match_alike(
    st: InfererV,
    env: &InferCx,
    pat: NodeId,
    p: NodeId,
    rest: List<NodeId>,
    ty: Ty,
    fuel: u64,
)
    requires
        fuel > 1,
    ensures
        sound(st, ty) && written(st, env, pat) == Some(
            NodeKind::OrPat { alternatives: List::Cons(p, Box::new(rest)) },
        ) ==> bind_pattern_spec(st, env, pat, &ty, fuel) == crate::coerce::bind_all_spec(
            st,
            env,
            &List::Cons(p, Box::new(rest)),
            &ty,
            (fuel - 1) as u64,
        ),
        crate::coerce::bind_all_spec(st, env, &List::Cons(p, Box::new(rest)), &ty, fuel)
            == crate::coerce::bind_all_spec(
            bind_pattern_spec(st, env, p, &ty, (fuel - 1) as u64),
            env,
            &rest,
            &ty,
            fuel,
        ),
        crate::coerce::bind_all_spec(st, env, &List::Nil, &ty, fuel) == st,
{
}

/// The patterns inside a variant are matched with what the variant holds: by position,
/// or by name.
pub proof fn a_variant_pattern_matches_the_payload(
    st: InfererV,
    env: &InferCx,
    pat: NodeId,
    name: Symbol,
    args: VariantPatArgs,
    ty: Ty,
    fuel: u64,
)
    requires
        fuel > 1,
        sound(st, ty),
        written(st, env, pat) == Some(NodeKind::VariantPat { name: name, args: args }),
    ensures
        ({
            let less = (fuel - 1) as u64;
            let (a, payload) = crate::types::variant_payload_spec(st, env, &ty, &name, less);
            let after = bind_pattern_spec(st, env, pat, &ty, fuel);
            match args {
                VariantPatArgs::Unit => after == st,
                VariantPatArgs::Tuple(elems) => match payload {
                    Some(l) => exists|tys: List<Ty>|
                        {
                            &&& tys@.len() == l@.len()
                            &&& forall|i: int| 0 <= i < l@.len() ==> tys@[i] == #[trigger] l@[i].1
                            &&& after == #[trigger] crate::coerce::bind_each_spec(a, env, &elems, &tys, 0, less)
                        },
                    None => after == crate::coerce::bind_each_spec(a, env, &elems, &List::Nil, 0, less),
                },
                VariantPatArgs::Record { fields, rest: _ } => after == crate::coerce::bind_record_fields_spec(
                    a,
                    env,
                    &fields,
                    &payload,
                    less,
                ),
            }
        }),
{
    let less = (fuel - 1) as u64;
    let (a, payload) = crate::types::variant_payload_spec(st, env, &ty, &name, less);
    match (args, payload) {
        (VariantPatArgs::Tuple(elems), Some(l)) => {
            let tys = crate::coerce::only_types_spec(&l);
            types_alone(l);
            assert(bind_pattern_spec(st, env, pat, &ty, fuel) == crate::coerce::bind_each_spec(
                a,
                env,
                &elems,
                &tys,
                0,
                less,
            ));
        },
        _ => {},
    }
}

proof fn types_alone(l: List<(Option<Symbol>, Ty)>)
    ensures
        ({
            let tys = crate::coerce::only_types_spec(&l);
            &&& tys@.len() == l@.len()
            &&& forall|i: int| 0 <= i < l@.len() ==> tys@[i] == #[trigger] l@[i].1
        }),
    decreases l,
{
    match l {
        List::Nil => {},
        List::Cons(h, t) => {
            types_alone(*t);
            assert(l@ =~= seq![h] + t@);
            let rest = crate::coerce::only_types_spec(&*t);
            assert(crate::coerce::only_types_spec(&l)@ =~= seq![h.1] + rest@);
        },
    }
}

/// A field of a record pattern gets what the payload declares under its name: the
/// pattern behind it is matched with that, or the field's own name bound to it.
pub proof fn a_record_field_matches_by_name(
    st: InfererV,
    env: &InferCx,
    f: NodeId,
    name: Symbol,
    pattern: Option<NodeId>,
    payload: List<(Option<Symbol>, Ty)>,
    ty: Ty,
    fuel: u64,
)
    requires
        fuel > 1,
        written(st, env, f) == Some(NodeKind::FieldPat { name: name, pattern: pattern }),
        crate::solve::payload_named_spec(&payload, &name) == Some(ty),
    ensures
        ({
            let after = crate::coerce::bind_record_field_spec(st, env, f, &Some(payload), fuel);
            match pattern {
                Some(p) => after == bind_pattern_spec(st, env, p, &ty, (fuel - 1) as u64),
                None => gives(st, after, f, ty),
            }
        }),
{
}

/// A field of a struct pattern gets the type of the struct's field of its name.
pub proof fn a_struct_field_matches_by_name(
    st: InfererV,
    env: &InferCx,
    f: NodeId,
    name: Symbol,
    pattern: Option<NodeId>,
    rest: List<NodeId>,
    ty: Ty,
    fuel: u64,
)
    requires
        fuel > 0,
        written(st, env, f) == Some(NodeKind::FieldPat { name: name, pattern: pattern }),
    ensures
        ({
            let less = (fuel - 1) as u64;
            let (a, found) = crate::types::field_ty_spec(st, env, &ty, &name, less);
            let after = crate::coerce::bind_struct_fields_spec(
                st,
                env,
                &List::Cons(f, Box::new(rest)),
                &ty,
                fuel,
            );
            match (found, pattern) {
                (Some(t), Some(p)) => after == crate::coerce::bind_struct_fields_spec(
                    bind_pattern_spec(a, env, p, &t, less),
                    env,
                    &rest,
                    &ty,
                    fuel,
                ),
                (Some(t), None) => exists|named: InfererV|
                    gives(a, named, f, t) && after == #[trigger] crate::coerce::bind_struct_fields_spec(
                        named,
                        env,
                        &rest,
                        &ty,
                        fuel,
                    ),
                _ => true,
            }
        }),
{
    let (a, found) = crate::types::field_ty_spec(st, env, &ty, &name, (fuel - 1) as u64);
    match (found, pattern) {
        (Some(t), None) => {
            let named = crate::coerce::bind_name_spec(a, f, &t);
            assert(gives(a, named, f, t));
            assert(crate::coerce::bind_struct_fields_spec(st, env, &List::Cons(f, Box::new(rest)), &ty, fuel)
                == crate::coerce::bind_struct_fields_spec(named, env, &rest, &ty, fuel));
        },
        _ => {},
    }
}

/// Every element of a slice pattern gets the element type of what is matched, and the
/// name of its rest a read-only slice of it.
pub proof fn a_slice_pattern_matches_elements(
    st: InfererV,
    env: &InferCx,
    pat: NodeId,
    elems: List<NodeId>,
    rest: Option<crate::ast::SliceRest>,
    ty: Ty,
    elem: Ty,
    fuel: u64,
)
    requires
        fuel > 1,
        sound(st, ty),
        written(st, env, pat) == Some(NodeKind::SlicePat { elems: elems, rest: rest }),
        match crate::unify::autoderef_spec(st, &ty, DEPTH_LIMIT) {
            Ty::Slice { mutable: _, inner } => *inner == elem,
            Ty::Array { len: _, mutable: _, inner } => *inner == elem,
            _ => false,
        },
    ensures
        ({
            let a = crate::coerce::bind_all_spec(st, env, &elems, &elem, (fuel - 1) as u64);
            let after = bind_pattern_spec(st, env, pat, &ty, fuel);
            match rest {
                Some(r) => if r.name is Some {
                    gives(a, after, pat, Ty::Slice { mutable: false, inner: Box::new(elem) })
                } else {
                    after == a
                },
                None => after == a,
            }
        }),
{
}

} // verus!
