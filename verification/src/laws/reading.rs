//! Laws of reading what is written: types, compile-time values, signatures, and which
//! fields may be named.

use vstd::prelude::*;

use crate::ast::{Lit, NodeKind};
use crate::def::DefKind;
use crate::ids::{DefId, FileId, NodeId};
use crate::laws::typing::opens;
use crate::list::List;
use crate::symbol::Symbol;
use crate::ty::{Const, ConstValue, Ty};
use crate::types::{const_value_in_spec, ret_from_node_spec, ty_from_node_in_spec, tys_from_nodes_spec};
use crate::unify::{InferCx, InfererV};

verus! {

/// The shape of a node of a file.
pub open spec fn at(env: &InferCx, file: FileId, node: NodeId) -> Option<NodeKind> {
    match crate::def::kind_of_spec(env.tables, file, node) {
        Some(k) => Some(*k),
        None => None,
    }
}

// Types.

/// A written type of the file being inferred is read there.
pub proof fn a_type_is_read_where_it_is_written(st: InfererV, env: &InferCx, node: NodeId, fuel: u64)
    requires
        fuel > 0,
    ensures
        crate::types::ty_from_node_spec(st, env, node, fuel) == ty_from_node_in_spec(
            st,
            env,
            st.file,
            node,
            (fuel - 1) as u64,
        ),
{
}

/// A pointer, slice or array type is of the type written inside it, with the
/// permission it is written with. A pointer to a function type is that type itself.
pub proof fn a_type_is_of_what_is_written_inside(
    st: InfererV,
    env: &InferCx,
    file: FileId,
    node: NodeId,
    mutable: bool,
    inner: NodeId,
    fuel: u64,
)
    requires
        fuel > 1,
    ensures
        ({
            let r = ty_from_node_in_spec(st, env, file, node, fuel);
            let (a, t) = ty_from_node_in_spec(st, env, file, inner, (fuel - 1) as u64);
            &&& at(env, file, node) == Some(NodeKind::SliceType { mutable: mutable, inner: inner }) ==> r == (
                a,
                Ty::Slice { mutable: mutable, inner: Box::new(t) },
            )
            &&& at(env, file, node) == Some(NodeKind::PtrType { mutable: mutable, inner: inner }) ==> match at(
                env,
                file,
                inner,
            ) {
                Some(NodeKind::FuncType { .. }) => r == (a, t),
                _ => r == (a, Ty::Ptr { mutable: mutable, inner: Box::new(t) }),
            }
            &&& at(env, file, node) == Some(NodeKind::DistinctType { inner: inner }) ==> r == (a, t)
        }),
{
}

/// An array type has the length written for it, read as a `usize`, and the type of
/// its elements.
pub proof fn an_array_type_has_its_length(
    st: InfererV,
    env: &InferCx,
    file: FileId,
    node: NodeId,
    len: NodeId,
    mutable: bool,
    inner: NodeId,
    index: Ty,
    other: Ty,
    fuel: u64,
)
    requires
        at(env, file, node) == Some(NodeKind::ArrayType { len: len, mutable: mutable, inner: inner }),
        st.ptr_ints == Some((index, other)),
        fuel > 2,
    ensures
        ({
            let (a, k) = const_value_in_spec(st, env, file, len, &index, "an array length", 0, (fuel - 2) as u64);
            let (b, t) = ty_from_node_in_spec(a, env, file, inner, (fuel - 1) as u64);
            ty_from_node_in_spec(st, env, file, node, fuel) == (
                b,
                Ty::Array { len: k, mutable: mutable, inner: Box::new(t) },
            )
        }),
{
    let less = (fuel - 1) as u64;
    assert(crate::types::const_len_in_spec(st, env, file, len, less) == const_value_in_spec(
        st,
        env,
        file,
        len,
        &index,
        "an array length",
        0,
        (fuel - 2) as u64,
    ));
}

/// Types written in a list are read in order, none left out.
pub proof fn types_are_read_in_order(
    st: InfererV,
    env: &InferCx,
    file: FileId,
    first: NodeId,
    rest: List<NodeId>,
    fuel: u64,
)
    requires
        fuel > 0,
    ensures
        ({
            let (a, t) = ty_from_node_in_spec(st, env, file, first, (fuel - 1) as u64);
            let (b, ts) = tys_from_nodes_spec(a, env, &rest, file, fuel);
            &&& tys_from_nodes_spec(st, env, &List::Cons(first, Box::new(rest)), file, fuel) == (
                b,
                List::Cons(t, Box::new(ts)),
            )
            &&& tys_from_nodes_spec(st, env, &List::Nil, file, fuel) == (st, List::<Ty>::Nil)
        }),
{
}

/// A tuple type has the types written in it, and the empty one is nothing.
pub proof fn a_tuple_type_has_its_elements(
    st: InfererV,
    env: &InferCx,
    file: FileId,
    node: NodeId,
    elems: List<NodeId>,
    fuel: u64,
)
    requires
        at(env, file, node) == Some(NodeKind::TupleType { elems: elems }),
        fuel > 2,
    ensures
        ({
            let (a, ts) = tys_from_nodes_spec(st, env, &elems, file, (fuel - 2) as u64);
            ty_from_node_in_spec(st, env, file, node, fuel) == match elems {
                List::Nil => (st, Ty::Void),
                List::Cons(_, _) => (a, Ty::Tuple(Box::new(ts))),
            }
        }),
{
    let inner = crate::types::tuple_from_nodes_spec(st, env, file, &elems, (fuel - 1) as u64);
    assert(ty_from_node_in_spec(st, env, file, node, fuel) == inner);
}

/// A function type has its parameters in order and what it returns, which is nothing
/// where none is written, and is of the C convention exactly where one is named.
pub proof fn a_function_type_has_its_parts(
    st: InfererV,
    env: &InferCx,
    file: FileId,
    node: NodeId,
    params: List<NodeId>,
    ret: Option<NodeId>,
    abi: Option<Symbol>,
    fuel: u64,
)
    requires
        at(env, file, node) == Some(NodeKind::FuncType { params: params, ret: ret, abi: abi }),
        fuel > 2,
    ensures
        ({
            let less = (fuel - 1) as u64;
            let (a, ps) = tys_from_nodes_spec(st, env, &params, file, less);
            let (b, r) = match ret {
                Some(n) => ty_from_node_in_spec(a, env, file, n, (fuel - 2) as u64),
                None => (a, Ty::Void),
            };
            ty_from_node_in_spec(st, env, file, node, fuel) == (
                b,
                Ty::Func { params: Box::new(ps), ret: Box::new(r), c: abi is Some },
            )
        }),
{
    let less = (fuel - 1) as u64;
    let (a, ps) = tys_from_nodes_spec(st, env, &params, file, less);
    let (b, r) = ret_from_node_spec(a, env, file, ret, less);
    assert(ty_from_node_in_spec(st, env, file, node, fuel) == (
        b,
        Ty::Func { params: Box::new(ps), ret: Box::new(r), c: abi is Some },
    ));
}

/// A hole is a type of its own, which something else settles.
pub proof fn a_hole_is_open(st: InfererV, env: &InferCx, file: FileId, node: NodeId, fuel: u64)
    requires
        at(env, file, node) == Some(NodeKind::TypeHole),
        fuel > 0,
    ensures
        ({
            let (after, t) = ty_from_node_in_spec(st, env, file, node, fuel);
            opens(st, after, t)
        }),
{
}

/// A trait object is of the trait it names, and a name that resolved to nothing is no
/// type.
pub proof fn a_trait_object_is_of_its_trait(
    st: InfererV,
    env: &InferCx,
    file: FileId,
    node: NodeId,
    inner: NodeId,
    fuel: u64,
)
    requires
        at(env, file, node) == Some(NodeKind::DynType { inner: inner }),
        fuel > 0,
    ensures
        ({
            let t = ty_from_node_in_spec(st, env, file, node, fuel).1;
            match crate::decls::resolved_def_in_spec(st, env, file, inner) {
                Some(d) => match t {
                    Ty::Dyn { def, assoc: _ } => def == d,
                    _ => false,
                },
                None => t == Ty::Error,
            }
        }),
{
}

/// A name that resolved to a struct, an enum or a trait is that definition; one of a
/// parameter is what the parameter stands for; one of something that was not loaded, or
/// that resolved to nothing, is no type.
pub proof fn a_type_path_is_what_it_resolved_to(
    st: InfererV,
    env: &InferCx,
    file: FileId,
    node: NodeId,
    args: List<NodeId>,
    fuel: u64,
)
    requires
        fuel > 2,
    ensures
        ({
            let (after, t) = crate::types::typepath_ty_spec(st, env, file, node, &args, fuel);
            match crate::decls::resolved_def_in_spec(st, env, file, node) {
                None => after == st && t == Ty::Error,
                Some(d) => match crate::def::def_kind_spec(env.tables, d) {
                    DefKind::Struct | DefKind::Enum | DefKind::Trait => match t {
                        Ty::Nominal { def, args: _ } => def == d,
                        _ => false,
                    },
                    DefKind::TypeParam => (after, t) == crate::types::param_ty_spec(
                        st,
                        env,
                        d,
                        (fuel - 1) as u64,
                    ),
                    DefKind::ConstParam => t == Ty::Error && after.diags.len() == st.diags.len() + 1,
                    DefKind::External => after == st && t == Ty::Error,
                    _ => true,
                },
            }
        }),
{
}

/// A type parameter that nothing pins stands for itself.
pub proof fn a_free_parameter_stands_for_itself(st: InfererV, env: &InferCx, def: DefId, fuel: u64)
    requires
        fuel > 0,
        crate::decls::recorded_pinned_spec(env.tables, def) is None,
        crate::types::pinned_node_spec(env.tables, def) is None,
    ensures
        crate::types::param_ty_spec(st, env, def, fuel) == (
            st,
            Ty::Nominal { def: def, args: Box::new(List::Nil) },
        ),
{
}

/// A declared type applied to as many arguments as it takes is applied to exactly
/// those, in the order they are written.
pub proof fn a_type_is_applied_to_what_is_written(
    st: InfererV,
    env: &InferCx,
    file: FileId,
    def: DefId,
    args: List<NodeId>,
    fuel: u64,
)
    requires
        fuel > 1,
    ensures
        ({
            let less = (fuel - 1) as u64;
            let plain = crate::types::plain_args_spec(env.tables, file, &args);
            let ts = tys_from_nodes_spec(st, env, &plain, file, less).1;
            match crate::types::applied_ty_spec(st, env, file, def, &args, fuel).1 {
                Ty::Nominal { def: d, args: found } => {
                    &&& d == def
                    &&& found@.len() >= ts@.len()
                    &&& found@.subrange(0, ts@.len() as int) =~= ts@
                },
                _ => false,
            }
        }),
{
    let less = (fuel - 1) as u64;
    let plain = crate::types::plain_args_spec(env.tables, file, &args);
    let (a, ts) = tys_from_nodes_spec(st, env, &plain, file, less);
    let b = crate::types::record_generic_args_in_spec(a, env, file, &args, less);
    match crate::types::applied_ty_spec(st, env, file, def, &args, fuel).1 {
        Ty::Nominal { def: _, args: found } => {
            let declared = crate::decls::declared_generics_spec(b, env, def);
            let rest = crate::unify::fresh_n_spec(b, crate::types::missing_count_spec(&ts, &declared)).1;
            crate::laws::generics::appending_keeps_both(ts, rest);
        },
        _ => {},
    }
}

/// An integer's name says its sign and its width: `i` or `u` and a number. One bit
/// without a sign is a truth, and there is no type of no bits, nor of one with a sign.
pub proof fn an_integer_type_has_its_width(signed: bool, bits: u64)
    ensures
        match crate::types::sized_int_spec(signed, bits) {
            Some(Ty::Bool) => bits == 1 && !signed,
            Some(t) => {
                &&& 2 <= bits <= 65535
                &&& crate::subst::int_parts_spec(&t) == Some((signed, bits))
            },
            None => bits == 0 || bits > 65535 || (bits == 1 && signed),
        },
{
}

// Signatures.

/// A function has the types written for its parameters, in order, and the one written
/// for what it returns.
pub proof fn a_signature_is_what_is_written(
    st: InfererV,
    env: &InferCx,
    file: FileId,
    func: NodeId,
    generics: List<NodeId>,
    params: List<NodeId>,
    ret: Option<NodeId>,
    body: Option<NodeId>,
    abi: Option<Symbol>,
    fuel: u64,
)
    requires
        at(env, file, func) == Some(
            NodeKind::FuncExpr { generics: generics, params: params, ret: ret, body: body, abi: abi },
        ),
        fuel > 2,
    ensures
        ({
            let (a, ps) = crate::types::param_tys_from_spec(st, env, &params, file, (fuel - 1) as u64);
            let (b, r) = match ret {
                Some(n) => ty_from_node_in_spec(a, env, file, n, (fuel - 2) as u64),
                None => (a, Ty::Void),
            };
            crate::types::func_sig_ty_in_spec(st, env, file, func, fuel) == (
                b,
                Ty::Func { params: Box::new(ps), ret: Box::new(r), c: abi is Some },
            )
        }),
{
}

/// Each parameter has the type written for it, an open one where none is.
pub proof fn a_parameter_has_the_type_written_for_it(
    st: InfererV,
    env: &InferCx,
    file: FileId,
    first: NodeId,
    rest: List<NodeId>,
    fuel: u64,
)
    requires
        fuel > 0,
    ensures
        ({
            let all = crate::types::param_tys_from_spec(st, env, &List::Cons(first, Box::new(rest)), file, fuel);
            match at(env, file, first) {
                Some(NodeKind::Param { name: _, ty: Some(n), default: _ }) => {
                    let (a, t) = ty_from_node_in_spec(st, env, file, n, (fuel - 1) as u64);
                    let (b, ts) = crate::types::param_tys_from_spec(a, env, &rest, file, fuel);
                    all == (b, List::Cons(t, Box::new(ts)))
                },
                _ => {
                    let (a, t) = crate::unify::fresh_spec(st);
                    let (b, ts) = crate::types::param_tys_from_spec(a, env, &rest, file, fuel);
                    opens(st, a, t) && all == (b, List::Cons(t, Box::new(ts)))
                },
            }
        }),
{
}

// Compile-time values.

/// Whether a value is one of a primitive type, once a `distinct` one is seen through.
pub open spec fn is_a(v: ConstValue, repr: Ty) -> bool {
    match (v, repr) {
        (ConstValue::Int(n), Ty::Int { .. }) => match crate::subst::int_parts_spec(&repr) {
            Some((signed, bits)) => crate::bigint::int_fits_spec(&n, signed, bits),
            None => true,
        },
        (ConstValue::Int(_), Ty::ComptimeInt) => true,
        (ConstValue::Int(_), Ty::Float(_)) => true,
        (ConstValue::Float(_), Ty::Float(_)) => true,
        (ConstValue::Bool(_), Ty::Bool) => true,
        (ConstValue::Char(_), Ty::Char) => true,
        _ => false,
    }
}

/// A value is read at its slot's type exactly where it is one of that type, and then
/// keeps its value; one that is not is complained about, and is none.
pub proof fn a_value_is_read_at_its_slots_type(
    st: InfererV,
    env: &InferCx,
    file: FileId,
    node: NodeId,
    value: ConstValue,
    want: Ty,
    what: &'static str,
)
    ensures
        ({
            let repr = crate::unify::numeric_repr_spec(st, &want);
            let (after, r) = crate::types::const_from_value_spec(st, env, file, node, value, &want, what);
            if is_a(value, repr) {
                &&& after == st
                &&& match r {
                    Const::Value(t, v) => {
                        &&& *t == want
                        &&& match (value, repr) {
                            (ConstValue::Int(n), Ty::Float(_)) => v == ConstValue::Float(
                                crate::bigint::int_to_double_spec(&n),
                            ),
                            _ => v == value,
                        }
                    },
                    _ => false,
                }
            } else {
                r == Const::Error
            }
        }),
{
}

/// A literal stands for its own value.
pub proof fn a_literal_stands_for_its_value(lit: Lit)
    ensures
        match (lit, crate::types::lit_value_spec(&lit)) {
            (Lit::Int(n), ConstValue::Int(m)) => n == m,
            (Lit::Float(a), ConstValue::Float(b)) => a == b,
            (Lit::Bool(a), ConstValue::Bool(b)) => a == b,
            (Lit::Char(a), ConstValue::Char(b)) => a == b,
            (Lit::Str(a), ConstValue::Str(b)) => a == b,
            (Lit::Bytes(a), ConstValue::Bytes(b)) => a == b,
            _ => false,
        },
{
}

/// What stands in a compile-time slot: a literal its value, a hole something open, and
/// a name what it resolved to, or nothing.
pub proof fn a_slot_holds_what_is_written(
    st: InfererV,
    env: &InferCx,
    file: FileId,
    node: NodeId,
    want: Ty,
    what: &'static str,
    depth: u32,
    fuel: u64,
)
    requires
        fuel > 2,
        depth <= 8,
    ensures
        ({
            let r = const_value_in_spec(st, env, file, node, &want, what, depth, fuel);
            match at(env, file, node) {
                Some(NodeKind::Lit(lit)) => r == crate::types::const_from_value_spec(
                    st,
                    env,
                    file,
                    node,
                    crate::types::lit_value_spec(&lit),
                    &want,
                    what,
                ),
                Some(NodeKind::TypeHole) => r.1 == Const::Var(st.next_const),
                Some(NodeKind::Path { .. }) => match crate::decls::resolved_def_in_spec(st, env, file, node) {
                    Some(d) => r == crate::types::const_of_def_spec(
                        st,
                        env,
                        file,
                        node,
                        d,
                        &want,
                        what,
                        depth,
                        (fuel - 2) as u64,
                    ),
                    None => r == (st, Const::Error),
                },
                _ => true,
            }
        }),
{
    match at(env, file, node) {
        Some(NodeKind::Path { .. }) => {
            let named = crate::types::const_of_name_spec(st, env, file, node, &want, what, depth, (fuel - 1) as u64);
            assert(const_value_in_spec(st, env, file, node, &want, what, depth, fuel) == named);
        },
        _ => {},
    }
}

/// A constant in a slot has the value recorded for it, and a parameter stays what it
/// is, where its type fits the slot's.
pub proof fn a_named_constant_has_its_value(
    st: InfererV,
    env: &InferCx,
    file: FileId,
    node: NodeId,
    named: DefId,
    want: Ty,
    what: &'static str,
    depth: u32,
    fuel: u64,
)
    requires
        fuel > 0,
    ensures
        ({
            let def = crate::def::resolve_alias_spec(env.tables, named);
            let (after, r) = crate::types::const_of_def_spec(
                st,
                env,
                file,
                node,
                named,
                &want,
                what,
                depth,
                fuel,
            );
            match crate::def::def_kind_spec(env.tables, def) {
                DefKind::Const => match crate::decls::recorded_const_value_spec(env.tables, def) {
                    Some(v) => (after, r) == crate::types::const_from_value_spec(st, env, file, node, v, &want, what),
                    None => true,
                },
                DefKind::ConstParam => {
                    let (a, declared) = crate::types::const_param_ty_spec(st, env, def, (fuel - 1) as u64);
                    &&& r == Const::Param(def) || r == Const::Error
                    &&& declared == want && want != Ty::ComptimeInt ==> after == a && r == Const::Param(def)
                },
                _ => r == Const::Error,
            }
        }),
{
}

// Privacy.

/// Outside of packages every field may be named; inside them a public one may be named
/// anywhere, a package's own in that package, and a private one nowhere but where its
/// struct is visible. Naming one that may not be is complained about once, and naming
/// one that may says nothing.
pub proof fn only_a_reachable_field_may_be_named(
    st: InfererV,
    env: &InferCx,
    node: NodeId,
    owner: DefId,
    field: DefId,
    def: crate::def::Def,
)
    requires
        crate::def::get_def_spec(env.tables, field) == Some(&def),
    ensures
        ({
            let reaches = !st.packaged || match def.vis {
                crate::def::Vis::Public => true,
                crate::def::Vis::Private => false,
                crate::def::Vis::Package => match (
                    match def.file {
                        Some(f) => crate::def::package_of_spec(env.tables, f),
                        None => None,
                    },
                    crate::def::package_of_spec(env.tables, st.file),
                ) {
                    (Some(a), Some(b)) => crate::symbol::sym_eq_spec(a, b),
                    (None, None) => true,
                    _ => false,
                },
            };
            let after = crate::types::check_field_visible_spec(st, env, node, owner, field);
            if reaches || crate::types::visible_here_spec(st, env, owner) {
                after == st
            } else {
                after.diags.len() == st.diags.len() + 1
            }
        }),
{
}

/// Whether one definition is another or lies inside it.
pub open spec fn within(env: &InferCx, d: DefId, outer: DefId, steps: nat) -> bool
    decreases steps,
{
    d == outer || (steps > 0 && match crate::def::def_parent_spec(env.tables, d) {
        Some(p) => within(env, p, outer, (steps - 1) as nat),
        None => false,
    })
}

/// A private member is visible in what declares its owner, in its owner, and in what
/// lies inside either.
pub proof fn a_private_member_is_visible_at_home(
    env: &InferCx,
    here: DefId,
    home: DefId,
    owner: DefId,
    fuel: u64,
)
    ensures
        fuel > 0 ==> crate::types::inside_spec(env.tables, Some(here), home, owner, fuel) == (within(
            env,
            here,
            home,
            (fuel - 1) as nat,
        ) || within(env, here, owner, (fuel - 1) as nat)),
    decreases fuel,
{
    if fuel > 1 {
        match crate::def::def_parent_spec(env.tables, here) {
            Some(p) => a_private_member_is_visible_at_home(env, p, home, owner, (fuel - 1) as u64),
            None => {},
        }
    }
    reveal_with_fuel(crate::types::inside_spec, 2);
}

} // verus!
