//! Laws of instantiation: what is declared over parameters is used with those
//! parameters replaced by the arguments of the use.

use vstd::prelude::*;

use crate::ast::NodeKind;
use crate::def::DefKind;
use crate::ids::{DefId, NodeId};
use crate::list::List;
use crate::subst::{subst_ty_spec, subst_tys_spec, Subst};
use crate::symbol::Symbol;
use crate::ty::{Const, Ty};
use crate::unify::{InferCx, InfererV};

verus! {

/// Where a parameter first stands in a list of them.
pub open spec fn first_at(params: Seq<DefId>, d: DefId, i: int) -> bool {
    &&& 0 <= i < params.len()
    &&& params[i] == d
    &&& forall|j: int| 0 <= j < i ==> #[trigger] params[j] != d
}

/// What a parameter is replaced by: the argument where it stands.
pub open spec fn argument_of(params: Seq<DefId>, args: Seq<Ty>, d: DefId) -> Option<Ty> {
    if exists|i: int| first_at(params, d, i) && i < args.len() {
        Some(args[choose|i: int| first_at(params, d, i) && i < args.len()])
    } else {
        None
    }
}

proof fn it_stands_first_once(params: Seq<DefId>, d: DefId, i: int, j: int)
    requires
        first_at(params, d, i),
        first_at(params, d, j),
    ensures
        i == j,
{
    if i < j {
        assert(params[i] != d);
    } else if j < i {
        assert(params[j] != d);
    }
}

/// Pairing parameters with arguments binds each parameter to the argument at its
/// position.
pub proof fn parameters_are_bound_by_position(params: List<DefId>, args: List<Ty>, d: DefId)
    ensures
        match crate::subst::find_ty_spec(&crate::subst::zip_subst_spec(&params, &args), d) {
            Some(t) => argument_of(params@, args@, d) == Some(*t),
            None => argument_of(params@, args@, d) is None,
        },
    decreases params,
{
    match (params, args) {
        (List::Cons(p, ps), List::Cons(a, rest)) => {
            assert(params@ =~= seq![p] + ps@);
            assert(args@ =~= seq![a] + rest@);
            if p == d {
                assert(first_at(params@, d, 0));
                let i = choose|i: int| first_at(params@, d, i) && i < args@.len();
                it_stands_first_once(params@, d, i, 0);
            } else {
                parameters_are_bound_by_position(*ps, *rest, d);
                if exists|i: int| first_at(ps@, d, i) && i < rest@.len() {
                    let i = choose|i: int| first_at(ps@, d, i) && i < rest@.len();
                    assert forall|j: int| 0 <= j < i + 1 implies #[trigger] params@[j] != d by {
                        if j > 0 {
                            assert(params@[j] == ps@[j - 1]);
                        }
                    }
                    assert(params@[i + 1] == ps@[i]);
                    assert(first_at(params@, d, i + 1));
                    let k = choose|k: int| first_at(params@, d, k) && k < args@.len();
                    it_stands_first_once(params@, d, k, i + 1);
                    assert(args@[i + 1] == rest@[i]);
                } else if exists|i: int| first_at(params@, d, i) && i < args@.len() {
                    let i = choose|i: int| first_at(params@, d, i) && i < args@.len();
                    assert(i > 0);
                    assert forall|j: int| 0 <= j < i - 1 implies #[trigger] ps@[j] != d by {
                        assert(params@[j + 1] == ps@[j]);
                    }
                    assert(ps@[i - 1] == params@[i]);
                    assert(first_at(ps@, d, i - 1));
                }
            }
        },
        _ => {},
    }
}

/// Whether a type is another with each parameter replaced by its argument, part by
/// part.
pub open spec fn instance(t: Ty, r: Ty, params: Seq<DefId>, args: Seq<Ty>) -> bool
    decreases t,
{
    match t {
        Ty::Nominal { def, args: x } => match argument_of(params, args, def) {
            Some(a) => r == a,
            None => match r {
                Ty::Nominal { def: d, args: y } => d == def && instances(*x, *y, params, args),
                _ => false,
            },
        },
        Ty::Ptr { mutable, inner } => match r {
            Ty::Ptr { mutable: m, inner: i } => m == mutable && instance(*inner, *i, params, args),
            _ => false,
        },
        Ty::Slice { mutable, inner } => match r {
            Ty::Slice { mutable: m, inner: i } => m == mutable && instance(*inner, *i, params, args),
            _ => false,
        },
        Ty::Array { len, mutable, inner } => match r {
            Ty::Array { len: l, mutable: m, inner: i } => l == len && m == mutable && instance(
                *inner,
                *i,
                params,
                args,
            ),
            _ => false,
        },
        Ty::Tuple(x) => match r {
            Ty::Tuple(y) => instances(*x, *y, params, args),
            _ => false,
        },
        Ty::Func { params: p, ret, c } => match r {
            Ty::Func { params: q, ret: s, c: d } => c == d && instances(*p, *q, params, args) && instance(
                *ret,
                *s,
                params,
                args,
            ),
            _ => false,
        },
        _ => r == t,
    }
}

/// The same of lists, position by position.
pub open spec fn instances(x: List<Ty>, y: List<Ty>, params: Seq<DefId>, args: Seq<Ty>) -> bool
    decreases x,
{
    match (x, y) {
        (List::Nil, List::Nil) => true,
        (List::Cons(a, s), List::Cons(b, t)) => instance(a, b, params, args) && instances(*s, *t, params, args),
        _ => false,
    }
}

/// The same of lists of types that may be named; the names stay.
pub open spec fn payload_instances(
    x: List<(Option<Symbol>, Ty)>,
    y: List<(Option<Symbol>, Ty)>,
    params: Seq<DefId>,
    args: Seq<Ty>,
) -> bool
    decreases x,
{
    match (x, y) {
        (List::Nil, List::Nil) => true,
        (List::Cons(a, s), List::Cons(b, t)) => a.0 == b.0 && instance(a.1, b.1, params, args) && payload_instances(
            *s,
            *t,
            params,
            args,
        ),
        _ => false,
    }
}

/// The instantiation that pairs parameters with arguments.
pub open spec fn paired(params: List<DefId>, args: List<Ty>) -> Subst {
    crate::subst::of_types_spec(crate::subst::zip_subst_spec(&params, &args))
}

/// Instantiating a type replaces each parameter by its argument, and nothing else.
pub proof fn instantiating_gives_an_instance(t: Ty, params: List<DefId>, args: List<Ty>)
    ensures
        instance(t, subst_ty_spec(&t, &paired(params, args)), params@, args@),
    decreases t,
{
    match t {
        Ty::Nominal { def, args: x } => {
            parameters_are_bound_by_position(params, args, def);
            instantiating_gives_instances(*x, params, args);
        },
        Ty::Ptr { mutable: _, inner } => instantiating_gives_an_instance(*inner, params, args),
        Ty::Slice { mutable: _, inner } => instantiating_gives_an_instance(*inner, params, args),
        Ty::Array { len: _, mutable: _, inner } => instantiating_gives_an_instance(*inner, params, args),
        Ty::Tuple(x) => instantiating_gives_instances(*x, params, args),
        Ty::Func { params: p, ret, c: _ } => {
            instantiating_gives_instances(*p, params, args);
            instantiating_gives_an_instance(*ret, params, args);
        },
        _ => {},
    }
}

proof fn instantiating_gives_instances(l: List<Ty>, params: List<DefId>, args: List<Ty>)
    ensures
        instances(l, subst_tys_spec(&l, &paired(params, args)), params@, args@),
    decreases l,
{
    match l {
        List::Nil => {},
        List::Cons(h, t) => {
            instantiating_gives_an_instance(h, params, args);
            instantiating_gives_instances(*t, params, args);
        },
    }
}

proof fn instantiating_a_payload_gives_instances(l: List<(Option<Symbol>, Ty)>, params: List<DefId>, args: List<Ty>)
    ensures
        payload_instances(l, crate::subst::subst_payload_spec(&l, &paired(params, args)), params@, args@),
    decreases l,
{
    match l {
        List::Nil => {},
        List::Cons(h, t) => {
            instantiating_gives_an_instance(h.1, params, args);
            instantiating_a_payload_gives_instances(*t, params, args);
        },
    }
}

/// A parameter by itself becomes the argument at its position.
pub proof fn a_parameter_becomes_its_argument(params: List<DefId>, args: List<Ty>, i: int)
    requires
        0 <= i < args@.len(),
        first_at(params@, params@[i], i),
    ensures
        subst_ty_spec(
            &Ty::Nominal { def: params@[i], args: Box::new(List::Nil) },
            &paired(params, args),
        ) == args@[i],
{
    parameters_are_bound_by_position(params, args, params@[i]);
    let k = choose|k: int| first_at(params@, params@[i], k) && k < args@.len();
    it_stands_first_once(params@, params@[i], k, i);
}

/// A value parameter that is bound is replaced wherever it stands as a length or a
/// width; anything else stays.
pub proof fn a_bound_value_replaces_its_parameter(map: Subst, d: DefId, mutable: bool, signed: bool, inner: Ty)
    ensures
        ({
            let p = Const::Param(d);
            let k = match crate::subst::find_const_spec(&map.consts, d) {
                Some(k) => *k,
                None => p,
            };
            &&& subst_ty_spec(&Ty::Int { signed: signed, width: p }, &map) == Ty::Int { signed: signed, width: k }
            &&& subst_ty_spec(&Ty::Array { len: p, mutable: mutable, inner: Box::new(inner) }, &map) == Ty::Array {
                len: k,
                mutable: mutable,
                inner: Box::new(subst_ty_spec(&inner, &map)),
            }
        }),
{
}

// Declared types.

/// What a field is declared with: what is recorded of it, and otherwise the type
/// written where it is declared.
pub proof fn a_field_is_declared_with_its_type(st: InfererV, env: &InferCx, field: DefId, fuel: u64)
    requires
        fuel > 0,
    ensures
        ({
            let (after, t) = crate::types::raw_field_ty_spec(st, env, field, fuel);
            match crate::def::decl_of_spec(env.tables, field) {
                Some(d) if d.field_ty is Some => after == st && t == d.field_ty,
                _ => match crate::def::def_place_spec(env.tables, field) {
                    Some((file, node)) => match crate::def::kind_of_spec(env.tables, file, node) {
                        Some(NodeKind::Field { name: _, ty }) => t == Some(
                            crate::types::ty_from_node_in_spec(st, env, file, *ty, (fuel - 1) as u64).1,
                        ),
                        _ => t == Some(crate::types::ty_from_node_in_spec(st, env, file, node, (fuel - 1) as u64).1),
                    },
                    None => t is None,
                },
            }
        }),
{
}

/// Whether a base is of a declared type, or a pointer to a value of it.
pub open spec fn is_of(base: Ty, def: DefId, args: List<Ty>) -> bool {
    let own = Ty::Nominal { def: def, args: Box::new(args) };
    base == own || base == (Ty::Ptr { mutable: true, inner: Box::new(own) }) || base == (Ty::Ptr {
        mutable: false,
        inner: Box::new(own),
    })
}

proof fn what_it_is_of_is_found(st: InfererV, base: Ty, def: DefId, args: List<Ty>)
    requires
        is_of(base, def, args),
    ensures
        crate::unify::autoderef_spec(st, &base, crate::list::DEPTH_LIMIT) == (Ty::Nominal {
            def: def,
            args: Box::new(args),
        }),
{
    reveal_with_fuel(crate::unify::autoderef_spec, 3);
    reveal_with_fuel(crate::unify::shallow_spec, 2);
}

/// A field of a value, or of what a pointer points at, has the type it is declared
/// with, the struct's parameters replaced by the arguments of the value's type. There
/// is none exactly where the struct declares none of that name.
pub proof fn a_field_has_its_declared_type_instantiated(
    st: InfererV,
    env: &InferCx,
    base: Ty,
    def: DefId,
    args: List<Ty>,
    name: Symbol,
    fuel: u64,
)
    requires
        fuel > 0,
        is_of(base, def, args),
    ensures
        ({
            let (after, r) = crate::types::field_ty_at_spec(st, env, None, &base, &name, fuel);
            match crate::lower::field_def_spec(env.tables, def, &name) {
                Some(field) => {
                    let (mid, raw) = crate::types::raw_field_ty_spec(st, env, field, (fuel - 1) as u64);
                    let params = crate::decls::declared_generics_spec(mid, env, def);
                    match (raw, r) {
                        (Some(t), Some(r)) => after == mid && instance(t, r, params@, args@),
                        (None, None) => true,
                        _ => false,
                    }
                },
                None => r is None && after == st,
            }
        }),
{
    what_it_is_of_is_found(st, base, def, args);
    match crate::lower::field_def_spec(env.tables, def, &name) {
        Some(field) => {
            let (mid, raw) = crate::types::raw_field_ty_spec(st, env, field, (fuel - 1) as u64);
            match raw {
                Some(t) => instantiating_gives_an_instance(t, crate::decls::declared_generics_spec(mid, env, def), args),
                None => {},
            }
        },
        None => {},
    }
}

/// The same where the field is written at a node: only whether it may be named there
/// is asked in between.
pub proof fn a_written_field_has_its_declared_type_instantiated(
    st: InfererV,
    env: &InferCx,
    at: NodeId,
    base: Ty,
    def: DefId,
    args: List<Ty>,
    name: Symbol,
    fuel: u64,
)
    requires
        fuel > 0,
        is_of(base, def, args),
    ensures
        ({
            let r = crate::types::field_ty_at_spec(st, env, Some(at), &base, &name, fuel).1;
            match crate::lower::field_def_spec(env.tables, def, &name) {
                Some(field) => {
                    let asked = crate::types::check_field_visible_spec(st, env, at, def, field);
                    let (mid, raw) = crate::types::raw_field_ty_spec(asked, env, field, (fuel - 1) as u64);
                    let params = crate::decls::declared_generics_spec(mid, env, def);
                    match (raw, r) {
                        (Some(t), Some(r)) => instance(t, r, params@, args@),
                        (None, None) => true,
                        _ => false,
                    }
                },
                None => r is None,
            }
        }),
{
    what_it_is_of_is_found(st, base, def, args);
    match crate::lower::field_def_spec(env.tables, def, &name) {
        Some(field) => {
            let asked = crate::types::check_field_visible_spec(st, env, at, def, field);
            let (mid, raw) = crate::types::raw_field_ty_spec(asked, env, field, (fuel - 1) as u64);
            match raw {
                Some(t) => instantiating_gives_an_instance(t, crate::decls::declared_generics_spec(mid, env, def), args),
                None => {},
            }
        },
        None => {},
    }
}

/// A field declared as a parameter of its struct has the argument at that position.
pub proof fn a_field_of_a_parameter_has_the_argument(
    st: InfererV,
    env: &InferCx,
    def: DefId,
    args: List<Ty>,
    name: Symbol,
    field: DefId,
    params: List<DefId>,
    i: int,
    fuel: u64,
)
    requires
        fuel > 1,
        crate::lower::field_def_spec(env.tables, def, &name) == Some(field),
        crate::decls::recorded_generics_spec(env.tables, def) == Some(params),
        crate::lower::recorded_field_ty_spec(env.tables, field) == Some(
            (Ty::Nominal { def: params@[i], args: Box::new(List::Nil) }),
        ),
        0 <= i < args@.len(),
        first_at(params@, params@[i], i),
    ensures
        crate::types::field_ty_at_spec(
            st,
            env,
            None,
            &Ty::Nominal { def: def, args: Box::new(args) },
            &name,
            fuel,
        ).1 == Some(args@[i]),
{
    let base = Ty::Nominal { def: def, args: Box::new(args) };
    what_it_is_of_is_found(st, base, def, args);
    a_parameter_becomes_its_argument(params, args, i);
}

/// A field of an anonymous struct has the type the struct gives that name.
pub proof fn a_field_of_an_anonymous_struct_is_in_the_type(
    st: InfererV,
    env: &InferCx,
    fields: List<(Symbol, Ty)>,
    name: Symbol,
    fuel: u64,
)
    requires
        fuel > 0,
    ensures
        ({
            let (after, r) = crate::types::field_ty_at_spec(st, env, None, &Ty::Struct(Box::new(fields)), &name, fuel);
            &&& after == st
            &&& match r {
                Some(t) => exists|i: int| 0 <= i < fields@.len() && #[trigger] fields@[i] == (name, t),
                None => forall|i: int| 0 <= i < fields@.len() ==> (#[trigger] fields@[i]).0 != name,
            }
        }),
{
    reveal_with_fuel(crate::unify::autoderef_spec, 2);
    reveal_with_fuel(crate::unify::shallow_spec, 2);
    a_name_is_found_with_its_type(fields, name);
}

proof fn a_name_is_found_with_its_type(l: List<(Symbol, Ty)>, name: Symbol)
    ensures
        match crate::ty::find_named_spec(&l, &name) {
            Some(t) => exists|i: int| 0 <= i < l@.len() && #[trigger] l@[i] == (name, *t),
            None => forall|i: int| 0 <= i < l@.len() ==> (#[trigger] l@[i]).0 != name,
        },
    decreases l,
{
    match l {
        List::Nil => {},
        List::Cons(h, t) => {
            assert(l@ =~= seq![h] + t@);
            if h.0 == name {
                assert(l@[0] == h);
            } else {
                a_name_is_found_with_its_type(*t, name);
                match crate::ty::find_named_spec(&*t, &name) {
                    Some(x) => {
                        let i = choose|i: int| 0 <= i < t@.len() && #[trigger] t@[i] == (name, *x);
                        assert(l@[i + 1] == t@[i]);
                    },
                    None => {
                        assert forall|i: int| 0 <= i < l@.len() implies (#[trigger] l@[i]).0 != name by {
                            if i > 0 {
                                assert(l@[i] == t@[i - 1]);
                            }
                        }
                    },
                }
            }
        },
    }
}

/// What a variant carries has the types it is declared with, the enum's parameters
/// replaced by the arguments of the type it is a variant of.
pub proof fn a_payload_has_its_declared_types_instantiated(
    st: InfererV,
    env: &InferCx,
    base: Ty,
    def: DefId,
    args: List<Ty>,
    name: Symbol,
    variant: DefId,
    fuel: u64,
)
    requires
        fuel > 0,
        is_of(base, def, args),
        crate::def::member_of_spec(env.tables, def, &name) == Some(variant),
        crate::def::def_kind_spec(env.tables, variant) == DefKind::Variant,
    ensures
        ({
            let r = crate::types::variant_payload_spec(st, env, &base, &name, fuel).1;
            let (mid, raw) = crate::types::raw_payload_spec(st, env, variant, (fuel - 1) as u64);
            let params = crate::decls::declared_generics_spec(mid, env, def);
            match (raw, r) {
                (Some(l), Some(r)) => payload_instances(l, r, params@, args@),
                (None, None) => true,
                _ => false,
            }
        }),
{
    what_it_is_of_is_found(st, base, def, args);
    let (mid, raw) = crate::types::raw_payload_spec(st, env, variant, (fuel - 1) as u64);
    match raw {
        Some(l) => instantiating_a_payload_gives_instances(l, crate::decls::declared_generics_spec(mid, env, def), args),
        None => {},
    }
}

/// A tuple struct's positions have the types they are declared with, its parameters
/// replaced by the arguments of the use.
pub proof fn positions_have_their_declared_types_instantiated(
    st: InfererV,
    env: &InferCx,
    base: Ty,
    def: DefId,
    args: List<Ty>,
    fuel: u64,
)
    requires
        fuel > 0,
        is_of(base, def, args),
    ensures
        ({
            let r = crate::types::tuple_struct_tys_spec(st, env, &base, fuel).1;
            let (mid, raw) = crate::types::raw_tuple_tys_spec(st, env, def, (fuel - 1) as u64);
            let params = crate::decls::declared_generics_spec(mid, env, def);
            match (raw, r) {
                (Some(l), Some(r)) => instances(l, r, params@, args@),
                (None, None) => true,
                _ => false,
            }
        }),
{
    what_it_is_of_is_found(st, base, def, args);
    let (mid, raw) = crate::types::raw_tuple_tys_spec(st, env, def, (fuel - 1) as u64);
    match raw {
        Some(l) => instantiating_gives_instances(l, crate::decls::declared_generics_spec(mid, env, def), args),
        None => {},
    }
}

/// A position of a tuple has the type that stands there.
pub proof fn a_position_has_the_type_that_stands_there(
    st: InfererV,
    env: &InferCx,
    node: NodeId,
    base: NodeId,
    index: u64,
    elems: List<Ty>,
    fuel: u64,
)
    requires
        fuel > 0,
        index < elems@.len(),
        crate::exprs::infer_expr_spec(st, env, base, (fuel - 1) as u64).1 == Ty::Tuple(Box::new(elems)),
    ensures
        crate::exprs::infer_tuple_index_spec(st, env, node, base, index, fuel).1 == elems@[index as int],
{
    reveal_with_fuel(crate::unify::autoderef_spec, 2);
    reveal_with_fuel(crate::unify::shallow_spec, 2);
    what_stands_at_a_position(elems, index);
}

/// What is found at a position of a list is what stands there.
pub proof fn what_stands_at_a_position<T>(l: List<T>, i: u64)
    ensures
        crate::list::nth_spec(&l, i) == (if i < l@.len() {
            Some(&l@[i as int])
        } else {
            None
        }),
    decreases l,
{
    match l {
        List::Nil => {},
        List::Cons(h, t) => {
            assert(l@ =~= seq![h] + t@);
            if i > 0 {
                what_stands_at_a_position(*t, (i - 1) as u64);
            }
        },
    }
}

} // verus!
