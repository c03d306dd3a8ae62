//! Laws of lowering declarations: functions, types, traits and constants come out with
//! the parts they were written with.

use vstd::prelude::*;

use crate::ast::{BinOp, Lit, NodeKind, RangeKind, VariantPayload};
use crate::def::{DefKind, ParamDefault};
use crate::ids::{DefId, IrId, NodeId};
use crate::ir::{Dispatch, Expr, ExprKind, Member, Param, Recv, TypeDefKind};
use crate::laws::control::shape;
use crate::list::List;
use crate::lower::{lower_expr_spec, ty_or_error_spec, ty_spec, LowerCx, LowererV};
use crate::symbol::Symbol;
use crate::ty::Ty;

verus! {

// Functions.

/// How a function takes its receiver: by pointer, with the permission of the pointer,
/// by value, or not at all, where its first parameter is not `self`.
pub proof fn a_receiver_is_the_first_parameter(tys: List<Ty>, params: List<Param>)
    ensures
        crate::lower::recv_of_spec(&tys, &params) == if params@.len() > 0 && crate::symbol::sym_is_spec(
            &params@[0].name,
            "self",
        ) {
            if tys@.len() > 0 {
                match tys@[0] {
                    Ty::Ptr { mutable, inner: _ } => if mutable {
                        Recv::MutPtr
                    } else {
                        Recv::Ptr
                    },
                    _ => Recv::Value,
                }
            } else {
                Recv::Value
            }
        } else {
            Recv::Free
        },
{
    crate::laws::fields::what_stands_at_a_position(tys, 0);
    crate::laws::fields::what_stands_at_a_position(params, 0);
}

/// A type lets its holder write where some pointer or slice on the way may be written
/// through.
pub proof fn writing_is_granted_by_a_writable_way(inner: Ty, mutable: bool)
    ensures
        crate::lower::grants_mutation_spec(&Ty::Ptr { mutable: mutable, inner: Box::new(inner) }) == (mutable
            || crate::lower::grants_mutation_spec(&inner)),
        crate::lower::grants_mutation_spec(&Ty::Slice { mutable: mutable, inner: Box::new(inner) }) == (mutable
            || crate::lower::grants_mutation_spec(&inner)),
        match inner {
            Ty::Ptr { .. } => true,
            Ty::Slice { .. } => true,
            _ => !crate::lower::grants_mutation_spec(&inner),
        },
{
}

/// A function writes into its caller's storage where some parameter lets it.
pub proof fn a_function_may_write_through_any_parameter(l: List<Ty>)
    ensures
        crate::lower::any_grants_mutation_spec(&l) == exists|i: int|
            0 <= i < l@.len() && crate::lower::grants_mutation_spec(&#[trigger] l@[i]),
    decreases l,
{
    match l {
        List::Nil => {},
        List::Cons(h, t) => {
            a_function_may_write_through_any_parameter(*t);
            assert(l@ =~= seq![h] + t@);
            if crate::lower::grants_mutation_spec(&h) {
                assert(crate::lower::grants_mutation_spec(&l@[0]));
            }
            if crate::lower::any_grants_mutation_spec(&*t) {
                let i = choose|i: int| 0 <= i < t@.len() && crate::lower::grants_mutation_spec(&#[trigger] t@[i]);
                assert(l@[i + 1] == t@[i]);
            }
            if exists|i: int| 0 <= i < l@.len() && crate::lower::grants_mutation_spec(&#[trigger] l@[i]) {
                let i = choose|i: int| 0 <= i < l@.len() && crate::lower::grants_mutation_spec(&#[trigger] l@[i]);
                if i > 0 {
                    assert(l@[i] == t@[i - 1]);
                }
            }
        },
    }
}

/// A parameter keeps its name and what it declares, and has the type inferred for it.
pub proof fn a_parameter_keeps_its_name(st: LowererV, cx: &LowerCx, node: NodeId, name: Symbol, ty: Option<NodeId>, default: Option<NodeId>)
    requires
        shape(st, cx, node) == Some(NodeKind::Param { name: name, ty: ty, default: default }),
    ensures
        ({
            let (after, p) = crate::lower::lower_param_spec(st, cx, node);
            match (p, crate::lower::def_of_spec(st, cx, node)) {
                (Some(p), Some(d)) => p.name == name && p.def == d && ty_or_error_spec(after, p.id) == ty_spec(
                    st,
                    cx,
                    node,
                ),
                (None, None) => after == st,
                _ => false,
            }
        }),
{
}

/// A function keeps its definition, its parameters, its convention and its body, and
/// its type is its whole signature: the types of its parameters and the type recorded
/// for what it returns.
pub proof fn a_function_keeps_its_parts(
    st: LowererV,
    cx: &LowerCx,
    def: DefId,
    func: NodeId,
    generics: List<NodeId>,
    params: List<NodeId>,
    ret: Option<NodeId>,
    body: Option<NodeId>,
    abi: Option<Symbol>,
    fuel: u64,
)
    requires
        shape(st, cx, func) == Some(
            NodeKind::FuncExpr { generics: generics, params: params, ret: ret, body: body, abi: abi },
        ),
        fuel > 1,
    ensures
        ({
            let less = (fuel - 1) as u64;
            let (a, ps) = crate::lower::lower_params_spec(st, cx, &params, less);
            let tys = crate::lower::param_types_spec(a, &ps);
            let (after, f) = crate::lower::lower_function_spec(st, cx, def, func, fuel);
            match f {
                Some(f) => {
                    &&& f.def == def
                    &&& f.name == crate::def::def_name_spec(cx.tables, def)
                    &&& f.params == ps
                    &&& f.abi == abi
                    &&& f.body is Some == body is Some
                    &&& f.recv == crate::lower::recv_of_spec(&tys, &ps)
                    &&& f.mutating == crate::lower::any_grants_mutation_spec(&tys)
                    &&& ty_or_error_spec(after, f.id) == (Ty::Func {
                        params: Box::new(tys),
                        ret: Box::new(ty_spec(st, cx, func)),
                        c: abi is Some,
                    })
                },
                None => false,
            }
        }),
{
}

/// Parameters and variants are lowered in order; what is none is left out.
pub proof fn declarations_are_lowered_in_order(
    st: LowererV,
    cx: &LowerCx,
    first: NodeId,
    rest: List<NodeId>,
    enum_def: DefId,
    fuel: u64,
)
    requires
        fuel > 0,
    ensures
        ({
            let (a, p) = crate::lower::lower_param_spec(st, cx, first);
            let (b, ps) = crate::lower::lower_params_spec(a, cx, &rest, fuel);
            crate::lower::lower_params_spec(st, cx, &List::Cons(first, Box::new(rest)), fuel) == (
                b,
                match p {
                    Some(p) => List::Cons(p, Box::new(ps)),
                    None => ps,
                },
            )
        }),
        ({
            let (a, v) = crate::lower::lower_variant_spec(st, cx, enum_def, first);
            let (b, vs) = crate::lower::lower_variants_spec(a, cx, &rest, enum_def, fuel);
            crate::lower::lower_variants_spec(st, cx, &List::Cons(first, Box::new(rest)), enum_def, fuel) == (
                b,
                match v {
                    Some(v) => List::Cons(v, Box::new(vs)),
                    None => vs,
                },
            )
        }),
{
}

/// The types of parameters are the ones recorded for them, in order.
pub proof fn parameters_have_their_types(st: LowererV, l: List<Param>)
    ensures
        ({
            let tys = crate::lower::param_types_spec(st, &l);
            &&& tys@.len() == l@.len()
            &&& forall|i: int| 0 <= i < l@.len() ==> tys@[i] == ty_or_error_spec(st, (#[trigger] l@[i]).id)
        }),
    decreases l,
{
    match l {
        List::Nil => {},
        List::Cons(h, t) => {
            parameters_have_their_types(st, *t);
            assert(l@ =~= seq![h] + t@);
            let rest = crate::lower::param_types_spec(st, &*t);
            assert(crate::lower::param_types_spec(st, &l)@ =~= seq![ty_or_error_spec(st, h.id)] + rest@);
        },
    }
}

/// Each parameter with a default is recorded with it, at its own position: the caller's
/// place where it is that, and else the value.
pub proof fn defaults_stand_at_their_positions(
    st: LowererV,
    cx: &LowerCx,
    def: DefId,
    id: IrId,
    rest: List<IrId>,
    i: u64,
    fuel: u64,
)
    requires
        fuel > 0,
    ensures
        ({
            let (a, d) = crate::lower::param_default_spec(st, cx, def, i, (fuel - 1) as u64);
            let next = crate::list::succ_spec(i);
            let all = crate::lower::lower_defaults_spec(st, cx, def, &List::Cons(id, Box::new(rest)), i, fuel);
            match d {
                Some(e) => {
                    let (b, others) = crate::lower::lower_defaults_spec(
                        crate::lower::set_default_spec(a, id, e),
                        cx,
                        def,
                        &rest,
                        next,
                        fuel,
                    );
                    let kept = if crate::lower::default_is_caller_location_spec(cx.tables, Some(def), i) {
                        ParamDefault::CallerLocation
                    } else {
                        ParamDefault::Value(id)
                    };
                    all == (b, List::Cons(Some(kept), Box::new(others)))
                },
                None => {
                    let (b, others) = crate::lower::lower_defaults_spec(a, cx, def, &rest, next, fuel);
                    all == (b, List::Cons(None, Box::new(others)))
                },
            }
        }),
{
}

// Constants.

/// A constant keeps its name, its definition and whether it may be written, and has
/// the type of its binding; what it starts as is what was written for it, or nothing.
pub proof fn a_constant_keeps_its_parts(
    st: LowererV,
    cx: &LowerCx,
    def: DefId,
    d: crate::def::Def,
    node: NodeId,
    pattern: NodeId,
    rhs: NodeId,
    fuel: u64,
)
    requires
        crate::def::get_def_spec(cx.tables, def) == Some(&d),
        d.node == Some(node),
        shape(st, cx, node) == Some(NodeKind::ConstBind { pattern: pattern, rhs: rhs }),
        fuel > 1,
    ensures
        ({
            let written = match shape(st, cx, rhs) {
                Some(NodeKind::AssocConst { ty: _, default }) => default,
                _ => Some(rhs),
            };
            let (a, id) = crate::lower::id_spec(st, cx, node);
            let b = crate::lower::set_ty_spec(a, id, ty_spec(st, cx, node));
            let c = crate::lower::set_directives_spec(b, id, crate::def::directives_of_spec(cx.tables, def));
            let begun = match crate::facts::fact_generics_spec(cx.facts, st.file, node) {
                Some(g) => crate::lower::set_generics_spec(c, id, *g),
                None => c,
            };
            let (after, found) = crate::lower::lower_global_spec(st, cx, def, fuel);
            match (found, written) {
                (Some(g), Some(w)) => {
                    let (end, e) = lower_expr_spec(begun, cx, w, (fuel - 1) as u64);
                    &&& g.id == id
                    &&& g.def == def
                    &&& g.name == d.name
                    &&& g.mutable == d.mutable
                    &&& g.init == Some(e)
                    &&& after == end
                },
                (Some(g), None) => {
                    &&& g.id == id
                    &&& g.def == def
                    &&& g.name == d.name
                    &&& g.mutable == d.mutable
                    &&& g.init is None
                    &&& after == begun
                },
                _ => false,
            }
        }),
{
}

// Types.

/// A declared type keeps its name and its definition, is of the kind it was written as,
/// and its own type is the one it names.
pub proof fn a_type_keeps_its_kind(
    st: LowererV,
    cx: &LowerCx,
    def: DefId,
    d: crate::def::Def,
    node: NodeId,
    fuel: u64,
)
    requires
        crate::def::get_def_spec(cx.tables, def) == Some(&d),
        d.node == Some(node),
        fuel > 1,
    ensures
        ({
            let rhs = crate::def::bound_rhs_spec(cx.tables, st.file, node);
            let (after, t) = crate::lower::lower_type_spec(st, cx, def, fuel);
            match (shape(st, cx, rhs), t) {
                (Some(NodeKind::StructType { .. }), Some(t)) => {
                    &&& t.def == def && t.name == d.name
                    &&& t.kind == (TypeDefKind::Struct {
                        members: crate::lower::struct_members_spec(st, cx, def).1,
                    })
                    &&& ty_or_error_spec(after, t.id) matches Ty::Nominal { def: n, args: _ } && n == def
                },
                (Some(NodeKind::EnumType { variants, generics: _ }), Some(t)) => {
                    &&& t.def == def && t.name == d.name
                    &&& t.kind == (TypeDefKind::Enum {
                        variants: crate::lower::lower_variants_spec(
                            st,
                            cx,
                            &variants,
                            def,
                            (fuel - 1) as u64,
                        ).1,
                    })
                    &&& ty_or_error_spec(after, t.id) matches Ty::Nominal { def: n, args: _ } && n == def
                },
                (Some(NodeKind::DistinctType { inner }), Some(t)) => {
                    &&& t.def == def && t.name == d.name
                    &&& t.kind is Distinct
                    &&& ty_or_error_spec(after, t.id) matches Ty::Nominal { def: n, args: _ } && n == def
                },
                (Some(NodeKind::TraitType { members, generics: _ }), Some(t)) => {
                    let parts = crate::lower::lower_trait_spec(st, cx, &members, def, (fuel - 1) as u64).1;
                    &&& t.def == def && t.name == d.name
                    &&& t.kind == (TypeDefKind::Trait { methods: parts.0, consts: parts.1 })
                    &&& ty_or_error_spec(after, t.id) matches Ty::Nominal { def: n, args: _ } && n == def
                },
                (Some(NodeKind::StructType { .. }), None) => false,
                (Some(NodeKind::EnumType { .. }), None) => false,
                (Some(NodeKind::DistinctType { .. }), None) => false,
                (Some(NodeKind::TraitType { .. }), None) => false,
                (_, found) => found is None,
            }
        }),
{
}

/// A member keeps its name and its definition, and has the type recorded where it is
/// declared.
pub proof fn a_member_keeps_its_name(
    st: LowererV,
    cx: &LowerCx,
    at: NodeId,
    def: Option<DefId>,
    name: Symbol,
)
    ensures
        ({
            let (after, m) = crate::lower::member_spec(st, cx, at, def, name);
            &&& m.name == name
            &&& m.def == def
            &&& after.file == st.file
            &&& ty_or_error_spec(after, m.id) == ty_spec(st, cx, at)
        }),
{
}

/// The members of a tuple are named by their positions, in order.
pub proof fn tuple_members_are_named_by_position(
    st: LowererV,
    cx: &LowerCx,
    first: NodeId,
    rest: List<NodeId>,
    i: u64,
)
    ensures
        ({
            let (a, m) = crate::lower::member_spec(st, cx, first, None, crate::symbol::index_sym_spec(i));
            let (b, others) = crate::lower::tuple_members_spec(a, cx, &rest, crate::list::succ_spec(i));
            &&& crate::lower::tuple_members_spec(st, cx, &List::Cons(first, Box::new(rest)), i) == (
                b,
                List::Cons(m, Box::new(others)),
            )
            &&& crate::lower::tuple_members_spec(st, cx, &List::Nil, i) == (st, List::<Member>::Nil)
        }),
{
}

/// The members of a record keep the names they are declared with, in order.
pub proof fn record_members_keep_their_names(
    st: LowererV,
    cx: &LowerCx,
    first: NodeId,
    rest: List<NodeId>,
    name: Symbol,
    ty: NodeId,
)
    requires
        shape(st, cx, first) == Some(NodeKind::Field { name: name, ty: ty }),
    ensures
        ({
            let (a, m) = crate::lower::member_spec(st, cx, first, None, name);
            let (b, others) = crate::lower::record_members_spec(a, cx, &rest);
            crate::lower::record_members_spec(st, cx, &List::Cons(first, Box::new(rest))) == (
                b,
                List::Cons(m, Box::new(others)),
            )
        }),
{
}

/// Whether members stand in the order they were written.
pub open spec fn in_written_order(l: Seq<(u32, Member)>) -> bool {
    forall|i: int, j: int| 0 <= i < j < l.len() ==> (#[trigger] l[i]).0 <= (#[trigger] l[j]).0
}

/// Putting a member among others keeps all of them and the order they were written in.
pub proof fn a_member_is_put_where_it_was_written(at: u32, m: Member, l: List<(u32, Member)>)
    requires
        in_written_order(l@),
    ensures
        ({
            let r = crate::lower::insert_member_spec(at, m, l);
            &&& in_written_order(r@)
            &&& r@.to_multiset() =~= l@.to_multiset().insert((at, m))
            &&& forall|x: (u32, Member)| #[trigger] r@.contains(x) ==> x == (at, m) || l@.contains(x)
        }),
    decreases l,
{
    broadcast use vstd::seq_lib::group_to_multiset_ensures;

    match l {
        List::Nil => {
            let r = crate::lower::insert_member_spec(at, m, l);
            reveal_with_fuel(crate::list::list_seq, 3);
            assert(r@ =~= l@.push((at, m)));
        },
        List::Cons(h, t) => {
            assert(l@ =~= seq![h] + t@);
            assert(in_written_order(t@)) by {
                assert forall|i: int, j: int| 0 <= i < j < t@.len() implies (#[trigger] t@[i]).0 <= (
                #[trigger] t@[j]).0 by {
                    assert(t@[i] == l@[i + 1] && t@[j] == l@[j + 1]);
                }
            }
            if at <= h.0 {
                let r = crate::lower::insert_member_spec(at, m, l);
                assert(r@ =~= seq![(at, m)] + l@);
                assert(r@ =~= l@.insert(0, (at, m)));
                assert(in_written_order(r@)) by {
                    assert forall|i: int, j: int| 0 <= i < j < r@.len() implies (#[trigger] r@[i]).0 <= (
                    #[trigger] r@[j]).0 by {
                        assert(r@[j] == l@[j - 1]);
                        if i > 0 {
                            assert(r@[i] == l@[i - 1]);
                        } else if j > 1 {
                            assert(l@[0] == h && l@[0].0 <= l@[j - 1].0);
                        }
                    }
                }
                assert forall|x: (u32, Member)| #[trigger] r@.contains(x) implies x == (at, m) || l@.contains(x) by {
                    let k = choose|k: int| 0 <= k < r@.len() && r@[k] == x;
                    if k > 0 {
                        assert(l@[k - 1] == x);
                    }
                }
            } else {
                a_member_is_put_where_it_was_written(at, m, *t);
                let s = crate::lower::insert_member_spec(at, m, *t);
                let r = crate::lower::insert_member_spec(at, m, l);
                assert(r@ =~= seq![h] + s@);
                assert(r@ =~= s@.insert(0, h));
                assert(l@ =~= t@.insert(0, h));
                assert(in_written_order(r@)) by {
                    assert forall|i: int, j: int| 0 <= i < j < r@.len() implies (#[trigger] r@[i]).0 <= (
                    #[trigger] r@[j]).0 by {
                        assert(r@[j] == s@[j - 1]);
                        if i > 0 {
                            assert(r@[i] == s@[i - 1]);
                        } else {
                            assert(s@.contains(s@[j - 1]));
                            if s@[j - 1] != (at, m) {
                                let k = choose|k: int| 0 <= k < t@.len() && t@[k] == s@[j - 1];
                                assert(l@[0].0 <= l@[k + 1].0);
                            }
                        }
                    }
                }
                assert forall|x: (u32, Member)| #[trigger] r@.contains(x) implies x == (at, m) || l@.contains(x) by {
                    let k = choose|k: int| 0 <= k < r@.len() && r@[k] == x;
                    if k > 0 {
                        assert(s@[k - 1] == x);
                        assert(s@.contains(x));
                        if x != (at, m) {
                            let q = choose|q: int| 0 <= q < t@.len() && t@[q] == x;
                            assert(l@[q + 1] == x);
                        }
                    } else {
                        assert(l@[0] == x);
                    }
                }
            }
        },
    }
}

/// A variant keeps its name and its definition, and has the tag recorded for it and the
/// members it was declared with.
pub proof fn a_variant_keeps_its_parts(
    st: LowererV,
    cx: &LowerCx,
    enum_def: DefId,
    node: NodeId,
    name: Symbol,
    payload: VariantPayload,
    value: Option<NodeId>,
)
    requires
        shape(st, cx, node) == Some(NodeKind::Variant { name: name, payload: payload, value: value }),
    ensures
        match (
            crate::lower::lower_variant_spec(st, cx, enum_def, node).1,
            crate::def::member_of_spec(cx.tables, enum_def, &name),
        ) {
            (Some(v), Some(d)) => {
                &&& v.def == d
                &&& v.name == name
                &&& match payload {
                    VariantPayload::Unit => v.members == List::<Member>::Nil && !v.tuple && v.tag == match crate::facts::fact_variant_tag_spec(
                        cx.facts,
                        st.file,
                        node,
                    ) {
                        Some(t) => t.0,
                        None => 0i128,
                    },
                    VariantPayload::Tuple(types) => v.tuple && v.members == crate::lower::tuple_members_spec(
                        st,
                        cx,
                        &types,
                        0,
                    ).1,
                    VariantPayload::Record(fields) => !v.tuple && v.members
                        == crate::lower::record_members_spec(st, cx, &fields).1,
                }
            },
            (None, None) => true,
            _ => false,
        },
{
}

/// The parts of a trait are lowered in order, methods and constants apart.
pub proof fn a_trait_keeps_its_members(
    st: LowererV,
    cx: &LowerCx,
    first: NodeId,
    rest: List<NodeId>,
    trait_def: DefId,
    fuel: u64,
)
    requires
        fuel > 0,
    ensures
        ({
            let (a, one) = crate::lower::lower_trait_member_spec(st, cx, first, trait_def, (fuel - 1) as u64);
            let (b, others) = crate::lower::lower_trait_spec(a, cx, &rest, trait_def, fuel);
            crate::lower::lower_trait_spec(st, cx, &List::Cons(first, Box::new(rest)), trait_def, fuel) == (
                b,
                (
                    match one.0 {
                        Some(m) => List::Cons(m, Box::new(others.0)),
                        None => others.0,
                    },
                    match one.1 {
                        Some(c) => List::Cons(c, Box::new(others.1)),
                        None => others.1,
                    },
                ),
            )
        }),
{
}

/// A method of a trait keeps its name and definition, says whether it has a body of its
/// own and parameters of its own, and has the signature recorded for it.
pub proof fn a_trait_method_keeps_its_parts(
    st: LowererV,
    cx: &LowerCx,
    member: NodeId,
    trait_def: DefId,
    m: NodeId,
    pattern: NodeId,
    rhs: NodeId,
    name: Symbol,
    def: DefId,
    generics: List<NodeId>,
    params: List<NodeId>,
    ret: Option<NodeId>,
    body: Option<NodeId>,
    abi: Option<Symbol>,
    fuel: u64,
)
    requires
        fuel > 0,
        crate::lower::decl_item_spec(cx.tables, st.file, member) == m,
        shape(st, cx, m) == Some(NodeKind::ConstBind { pattern: pattern, rhs: rhs }),
        crate::lower::binding_name_spec(st, cx, pattern) == Some(name),
        crate::def::member_of_spec(cx.tables, trait_def, &name) == Some(def),
        shape(st, cx, rhs) == Some(
            NodeKind::FuncExpr { generics: generics, params: params, ret: ret, body: body, abi: abi },
        ),
    ensures
        ({
            let (after, r) = crate::lower::lower_trait_member_spec(st, cx, member, trait_def, fuel);
            match r {
                (Some(t), None) => {
                    &&& t.def == def
                    &&& t.name == name
                    &&& t.generic == (generics@.len() > 0)
                    &&& t.has_default == body is Some
                    &&& t.sized_self == crate::lower::sized_self_spec(cx.tables, def)
                    &&& ty_or_error_spec(after, t.id) == match crate::facts::fact_signature_spec(
                        cx.facts,
                        st.file,
                        rhs,
                    ) {
                        Some(s) => *s,
                        None => Ty::Error,
                    }
                },
                _ => false,
            }
        }),
{
    reveal_with_fuel(crate::list::list_seq, 2);
}

// Expressions of one operation.

/// A sub-slice is taken of what is sliced, from where it starts, which is the beginning
/// where nothing is written, to where it ends, one further where the end is included.
pub proof fn a_slice_runs_between_its_bounds(
    st: LowererV,
    cx: &LowerCx,
    node: NodeId,
    base: NodeId,
    range: NodeId,
    start: Option<NodeId>,
    end: NodeId,
    kind: RangeKind,
    ty: Ty,
    fuel: u64,
)
    requires
        fuel > 1,
        shape(st, cx, range) == Some(NodeKind::Range { start: start, end: Some(end), kind: kind }),
    ensures
        ({
            let less = (fuel - 1) as u64;
            let (a, value) = lower_expr_spec(st, cx, base, less);
            let (_, e) = crate::lower::lower_slice_spec(st, cx, node, base, range, ty, fuel);
            match e.kind {
                ExprKind::Intrinsic { name, args } => {
                    &&& name == crate::symbol::sym_spec("slice")
                    &&& args@.len() == 3
                    &&& args@[0] == value
                    &&& match start {
                        Some(s) => {
                            let (b, lo) = lower_expr_spec(a, cx, s, less);
                            let hi = lower_expr_spec(b, cx, end, less).1;
                            args@[1] == lo && if kind == RangeKind::Closed {
                                match args@[2].kind {
                                    ExprKind::Binary { op, lhs, rhs } => op == BinOp::Add && *lhs == hi && (*rhs).kind
                                        == ExprKind::Lit(Lit::Int(crate::bigint::int_of_spec(1))),
                                    _ => false,
                                }
                            } else {
                                args@[2] == hi
                            }
                        },
                        None => args@[1].kind == ExprKind::Lit(Lit::Int(crate::bigint::int_of_spec(0))),
                    }
                },
                _ => false,
            }
        }),
{
    reveal_with_fuel(crate::list::list_seq, 5);
}

/// The length of an array whose length is known is that number, and any other is asked
/// of what it is the length of.
pub proof fn a_known_length_is_a_number(st: LowererV, base: Expr, ty: Ty)
    ensures
        ({
            let (after, e) = crate::lower::len_expr_spec(st, base, ty);
            let known = match ty_or_error_spec(st, base.id) {
                Ty::Array { len, mutable: _, inner: _ } => crate::ty::const_value_spec(&len),
                _ => None,
            };
            &&& ty_or_error_spec(after, e.id) == ty
            &&& match known {
                Some(n) => e.kind == ExprKind::Lit(Lit::Int(crate::bigint::int_of_spec(n))),
                None => match e.kind {
                    ExprKind::Intrinsic { name, args } => name == crate::symbol::sym_spec("len") && args@
                        =~= seq![base],
                    _ => false,
                },
            }
        }),
{
    reveal_with_fuel(crate::list::list_seq, 3);
}

/// A name stands for the local or the parameter it names, for the `const` parameter, or
/// for what is declared outside of every body.
pub proof fn a_name_stands_for_what_it_names(st: LowererV, cx: &LowerCx, node: NodeId, def: DefId, ty: Ty)
    ensures
        ({
            let (after, e) = crate::lower::global_or_local_spec(st, cx, node, def, ty);
            &&& e.kind == match crate::def::def_kind_spec(cx.tables, def) {
                DefKind::Local => ExprKind::Local(def),
                DefKind::Param => ExprKind::Local(def),
                DefKind::ConstParam => ExprKind::ConstParam(def),
                _ => ExprKind::Global(def),
            }
            &&& ty_or_error_spec(after, e.id) == ty
        }),
{
}

/// A call through a trait's own name is reached by the trait that was found, for the
/// type it was found for; one of a callable value by that value's type; any other
/// directly.
pub proof fn a_static_call_is_reached_as_it_was_resolved(
    st: LowererV,
    cx: &LowerCx,
    head: NodeId,
    method: DefId,
)
    ensures
        match (
            crate::lower::static_dispatch_spec(st, cx, head, Some(method)),
            crate::facts::fact_static_trait_self_spec(cx.facts, st.file, head),
            crate::facts::fact_func_call_spec(cx.facts, st.file, head),
        ) {
            (Dispatch::Generic { trait_def, method: m, self_ty, trait_args }, Some(s), _) => {
                &&& trait_def == s.trait_def
                &&& m == method
                &&& self_ty == s.self_ty
                &&& trait_args == s.trait_args
            },
            (Dispatch::Func { self_ty }, None, Some(_)) => self_ty == ty_spec(st, cx, head),
            (Dispatch::Static, None, None) => true,
            _ => false,
        },
{
}

/// Which line a position is on: the last that starts at or before it, counted from
/// one, and how far into it, counted from one.
pub proof fn a_position_is_on_the_last_line_that_began(starts: List<u32>, pos: u32, line: u64, begin: u32)
    requires
        line + starts@.len() < u64::MAX,
        forall|i: int, j: int| 0 <= i < j < starts@.len() ==> starts@[i] <= starts@[j],
    ensures
        ({
            let (n, b) = crate::lower::line_at_spec(&starts, pos, line, begin);
            let k = n - line;
            &&& 0 <= k <= starts@.len()
            &&& forall|i: int| 0 <= i < k ==> starts@[i] <= pos
            &&& k < starts@.len() ==> pos < starts@[k]
            &&& b == if k == 0 { begin } else { starts@[k - 1] }
        }),
    decreases starts,
{
    match starts {
        List::Nil => {},
        List::Cons(h, t) => {
            assert(starts@ =~= seq![h] + t@);
            if h <= pos {
                assert forall|i: int, j: int| 0 <= i < j < t@.len() implies t@[i] <= t@[j] by {
                    assert(t@[i] == starts@[i + 1] && t@[j] == starts@[j + 1]);
                }
                let next = crate::list::succ_spec(line);
                assert(next == line + 1);
                a_position_is_on_the_last_line_that_began(*t, pos, next, h);
                let (n, b) = crate::lower::line_at_spec(&starts, pos, line, begin);
                let k = n - line;
                assert forall|i: int| 0 <= i < k implies starts@[i] <= pos by {
                    if i > 0 {
                        assert(starts@[i] == t@[i - 1]);
                    }
                }
                if k < starts@.len() {
                    assert(starts@[k] == t@[k - 1]);
                }
                if k > 1 {
                    assert(starts@[k - 1] == t@[k - 2]);
                }
            } else {
                assert(starts@[0] == h);
            }
        },
    }
}

} // verus!
