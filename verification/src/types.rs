//! Type expressions, the compile-time values written in them, and the types
//! declarations have.

use vstd::prelude::*;

use crate::ast::{BinOp, Lit, NodeKind, StructKind, VariantPayload};
use crate::bigint::{dup_digits, dup_int, int_fits, int_to_double, int_to_i128, Int};
use crate::decls::{
    bound_nodes, has_decl, recorded_assoc_const_ty, recorded_bound_args, recorded_const_value,
    recorded_distinct_repr, recorded_expansion, recorded_payload, recorded_pinned, recorded_signature,
    recorded_tuple_tys,
};
use crate::def::{
    bound_rhs, def_in, def_kind, def_name, def_parent, def_place, dup_defs, func_of, get_def, has_ast,
    kind_of, lang_def, member_of, package_of, resolve_alias, DefKind, Tables, Vis,
};
use crate::diag::{kind_label, say, say_name, say_ty, Part};
use crate::facts::{FactsV, Resolution, TyPathReported};
use crate::fold::{binary_values, unary_op, Folded};
use crate::ids::{DefId, FileId, NodeId};
use crate::list::{append, is_empty, list2, list3, list4, list5, list7, list_len, single, DEPTH_LIMIT, List};
use crate::lower::{field_def, names_type_kind, recorded_field_ty};
use crate::subst::{
    digits_of, int_parts, int_widens, is_error, is_primitive, sort_named, subst_payload, subst_ty, subst_tys,
};
use crate::symbol::{dup_sym, dup_text, sym_eq, sym_is, Symbol};
use crate::ty::{dup_ty, find_named, int_ty, nominal, nominals, ty_eq, Const, ConstValue, FloatWidth, Ty};
use crate::unify::{succ32, InferCx, Inferer, InfererV};

verus! {

broadcast use {
    crate::keeping::kept_by_both,
    crate::keeping::kept_by_nothing,
    crate::keeping::loops_stand_on,
    crate::keeping::loops_stand_still,
};

// Primitive types.

/// [`named_primitive`], as a mathematical function.
pub open spec fn named_primitive_spec(name: &Symbol) -> Option<Ty> {
    if crate::symbol::sym_is_spec(name, "bool") {
        Some(Ty::Bool)
    } else if crate::symbol::sym_is_spec(name, "char") {
        Some(Ty::Char)
    } else if crate::symbol::sym_is_spec(name, "void") {
        Some(Ty::Void)
    } else if crate::symbol::sym_is_spec(name, "never") {
        Some(Ty::Never)
    } else if crate::symbol::sym_is_spec(name, "opaque") {
        Some(Ty::Opaque)
    } else if crate::symbol::sym_is_spec(name, "f16") {
        Some(Ty::Float(FloatWidth::F16))
    } else if crate::symbol::sym_is_spec(name, "f32") {
        Some(Ty::Float(FloatWidth::F32))
    } else if crate::symbol::sym_is_spec(name, "f64") {
        Some(Ty::Float(FloatWidth::F64))
    } else if crate::symbol::sym_is_spec(name, "f80") {
        Some(Ty::Float(FloatWidth::F80))
    } else if crate::symbol::sym_is_spec(name, "f128") {
        Some(Ty::Float(FloatWidth::F128))
    } else {
        None
    }
}

/// The types with a name of their own.
pub fn named_primitive(name: &Symbol) -> (r: Option<Ty>)
    ensures
        r == named_primitive_spec(name),
{
    if sym_is(name, "bool") {
        Some(Ty::Bool)
    } else if sym_is(name, "char") {
        Some(Ty::Char)
    } else if sym_is(name, "void") {
        Some(Ty::Void)
    } else if sym_is(name, "never") {
        Some(Ty::Never)
    } else if sym_is(name, "opaque") {
        Some(Ty::Opaque)
    } else if sym_is(name, "f16") {
        Some(Ty::Float(FloatWidth::F16))
    } else if sym_is(name, "f32") {
        Some(Ty::Float(FloatWidth::F32))
    } else if sym_is(name, "f64") {
        Some(Ty::Float(FloatWidth::F64))
    } else if sym_is(name, "f80") {
        Some(Ty::Float(FloatWidth::F80))
    } else if sym_is(name, "f128") {
        Some(Ty::Float(FloatWidth::F128))
    } else {
        None
    }
}

/// [`sized_int`], as a mathematical function.
pub open spec fn sized_int_spec(signed: bool, bits: u64) -> Option<Ty> {
    if bits == 0 || bits > 65535 {
        None
    } else if bits == 1 {
        if signed {
            None
        } else {
            Some(Ty::Bool)
        }
    } else {
        Some(Ty::Int { signed: signed, width: Const::Width(bits as u16) })
    }
}

/// The integer type of a width. A one-bit unsigned integer is `bool`, and there
/// is no one-bit signed one.
pub fn sized_int(signed: bool, bits: u64) -> (r: Option<Ty>)
    ensures
        r == sized_int_spec(signed, bits),
{
    if bits == 0 || bits > 65535 {
        None
    } else if bits == 1 {
        if signed {
            None
        } else {
            Some(Ty::Bool)
        }
    } else {
        Some(Ty::Int { signed: signed, width: Const::Width(bits as u16) })
    }
}

/// [`primitive_ty`], as a mathematical function.
pub open spec fn primitive_ty_spec(name: &Symbol) -> Option<Ty> {
    match named_primitive_spec(name) {
        Some(t) => Some(t),
        None => match &name.text {
            List::Cons(c, rest) => if (*c == 'i' || *c == 'u') && !crate::list::is_empty_spec(rest) {
                match crate::subst::digits_of_spec(rest, 0) {
                    Some(bits) => sized_int_spec(*c == 'i', bits),
                    None => None,
                }
            } else {
                None
            },
            List::Nil => None,
        },
    }
}

/// The primitive type a name stands for.
pub fn primitive_ty(name: &Symbol) -> (r: Option<Ty>)
    ensures
        r == primitive_ty_spec(name),
{
    match named_primitive(name) {
        Some(t) => Some(t),
        None => match &name.text {
            List::Cons(c, rest) => if (*c == 'i' || *c == 'u') && !is_empty(rest) {
                match digits_of(rest, 0) {
                    Some(bits) => sized_int(*c == 'i', bits),
                    None => None,
                }
            } else {
                None
            },
            List::Nil => None,
        },
    }
}

/// [`is_ptr_sized`], as a mathematical function.
pub open spec fn is_ptr_sized_spec(t: &Tables, ty: &Ty) -> bool {
    match ty {
        Ty::Nominal { def, args: _ } => {
            let d = crate::def::resolve_alias_spec(t, *def);
            crate::def::lang_def_spec(t, "usize") == Some(d)
                || crate::def::lang_def_spec(t, "isize") == Some(d)
        },
        _ => false,
    }
}

/// Whether a type is one of the two pointer-sized integers.
pub fn is_ptr_sized(t: &Tables, ty: &Ty) -> (r: bool)
    ensures
        r == is_ptr_sized_spec(t, ty),
{
    match ty {
        Ty::Nominal { def, args: _ } => {
            let d = resolve_alias(t, *def);
            lang_def(t, "usize") == Some(d) || lang_def(t, "isize") == Some(d)
        },
        _ => false,
    }
}

/// [`is_assoc_binding`], as a mathematical function.
pub open spec fn is_assoc_binding_spec(t: &Tables, file: FileId, node: NodeId) -> bool {
    match crate::def::kind_of_spec(t, file, node) {
        Some(NodeKind::AssocBinding { .. }) => true,
        _ => false,
    }
}

/// Whether a node pins an associated type rather than being an argument.
pub fn is_assoc_binding(t: &Tables, file: FileId, node: NodeId) -> (r: bool)
    ensures
        r == is_assoc_binding_spec(t, file, node),
{
    match kind_of(t, file, node) {
        Some(NodeKind::AssocBinding { .. }) => true,
        _ => false,
    }
}

/// [`plain_args`], as a mathematical function.
pub open spec fn plain_args_spec(t: &Tables, file: FileId, l: &List<NodeId>) -> List<NodeId>
    decreases l,
{
    match l {
        List::Nil => List::Nil,
        List::Cons(h, rest) => if is_assoc_binding_spec(t, file, *h) {
            plain_args_spec(t, file, rest)
        } else {
            List::Cons(*h, Box::new(plain_args_spec(t, file, rest)))
        },
    }
}

/// The arguments among some nodes, without the associated types they pin.
pub fn plain_args(t: &Tables, file: FileId, l: &List<NodeId>) -> (r: List<NodeId>)
    ensures
        r == plain_args_spec(t, file, l),
    decreases l,
{
    match l {
        List::Nil => List::Nil,
        List::Cons(h, rest) => if is_assoc_binding(t, file, *h) {
            plain_args(t, file, rest)
        } else {
            List::Cons(*h, Box::new(plain_args(t, file, rest)))
        },
    }
}

// Type expressions.

/// [`Inferer::ty_from_node`], as a mathematical function.
pub open spec fn ty_from_node_spec(st: InfererV, env: &InferCx, node: NodeId, fuel: u64) -> (InfererV, Ty)
    decreases fuel,
{
    if fuel == 0 {
        (crate::unify::give_up_spec(st), Ty::Error)
    } else {
        ty_from_node_in_spec(st, env, st.file, node, (fuel - 1) as u64)
    }
}

/// [`Inferer::tys_from_nodes`], as a mathematical function.
pub open spec fn tys_from_nodes_spec(
    st: InfererV,
    env: &InferCx,
    l: &List<NodeId>,
    file: FileId,
    fuel: u64,
) -> (InfererV, List<Ty>)
    decreases fuel, l,
{
    if fuel == 0 {
        (crate::unify::give_up_spec(st), List::Nil)
    } else {
        match l {
            List::Nil => (st, List::Nil),
            List::Cons(h, t) => {
                let (st, a) = ty_from_node_in_spec(st, env, file, *h, (fuel - 1) as u64);
                let (st, rest) = tys_from_nodes_spec(st, env, t, file, fuel);
                (st, List::Cons(a, Box::new(rest)))
            },
        }
    }
}

/// [`Inferer::ret_from_node`], as a mathematical function.
pub open spec fn ret_from_node_spec(
    st: InfererV,
    env: &InferCx,
    file: FileId,
    node: Option<NodeId>,
    fuel: u64,
) -> (InfererV, Ty)
    decreases fuel,
{
    if fuel == 0 {
        (crate::unify::give_up_spec(st), Ty::Error)
    } else {
        match node {
            Some(n) => ty_from_node_in_spec(st, env, file, n, (fuel - 1) as u64),
            None => (st, Ty::Void),
        }
    }
}

/// [`is_func_type`], as a mathematical function.
pub open spec fn is_func_type_spec(k: Option<&NodeKind>) -> bool {
    match k {
        Some(NodeKind::FuncType { .. }) => true,
        _ => false,
    }
}

/// Whether a node is a function type.
pub fn is_func_type(k: Option<&NodeKind>) -> (r: bool)
    ensures
        r == is_func_type_spec(k),
{
    match k {
        Some(NodeKind::FuncType { .. }) => true,
        _ => false,
    }
}

/// [`Inferer::ty_from_node_in`], as a mathematical function.
pub open spec fn ty_from_node_in_spec(
    st: InfererV,
    env: &InferCx,
    file: FileId,
    node: NodeId,
    fuel: u64,
) -> (InfererV, Ty)
    decreases fuel,
{
    if fuel == 0 {
        (crate::unify::give_up_spec(st), Ty::Error)
    } else {
        match crate::def::kind_of_spec(env.tables, file, node) {
            Some(NodeKind::TypeHole) => crate::unify::fresh_spec(st),
            Some(NodeKind::ImplType { .. }) => {
                let st = crate::unify::report_in_spec(
                    st,
                    env,
                    file,
                    node,
                    crate::diag::say_spec(
                        "`impl` is written as a parameter's type or as the return type (§5.4)",
                    ),
                );
                (st, Ty::Error)
            },
            Some(NodeKind::GenericTypeParam { .. }) => match crate::unify::get_def_meta_spec(st, file, node) {
                Some(def) => {
                    let args = match crate::unify::get_opaque_args_spec(st, file, node) {
                        Some(l) => crate::ty::nominals_spec(&l),
                        None => List::Nil,
                    };
                    (st, Ty::Nominal { def: def, args: Box::new(args) })
                },
                None => (st, Ty::Error),
            },
            Some(NodeKind::PtrType { mutable, inner }) => if is_func_type_spec(
                crate::def::kind_of_spec(env.tables, file, *inner),
            ) {
                ty_from_node_in_spec(st, env, file, *inner, (fuel - 1) as u64)
            } else {
                let (st, t) = ty_from_node_in_spec(st, env, file, *inner, (fuel - 1) as u64);
                (st, Ty::Ptr { mutable: *mutable, inner: Box::new(t) })
            },
            Some(NodeKind::SliceType { mutable, inner }) => {
                let (st, t) = ty_from_node_in_spec(st, env, file, *inner, (fuel - 1) as u64);
                (st, Ty::Slice { mutable: *mutable, inner: Box::new(t) })
            },
            Some(NodeKind::ArrayType { len, mutable, inner }) => {
                let (st, k) = const_len_in_spec(st, env, file, *len, (fuel - 1) as u64);
                let (st, t) = ty_from_node_in_spec(st, env, file, *inner, (fuel - 1) as u64);
                (st, Ty::Array { len: k, mutable: *mutable, inner: Box::new(t) })
            },
            Some(NodeKind::TupleType { elems }) => tuple_from_nodes_spec(
                st,
                env,
                file,
                elems,
                (fuel - 1) as u64,
            ),
            Some(NodeKind::FuncType { params, ret, abi }) => {
                let (st, ps) = tys_from_nodes_spec(st, env, params, file, (fuel - 1) as u64);
                let (st, r) = ret_from_node_spec(st, env, file, *ret, (fuel - 1) as u64);
                (st, Ty::Func { params: Box::new(ps), ret: Box::new(r), c: abi.is_some() })
            },
            Some(NodeKind::DynType { inner }) => match crate::decls::resolved_def_in_spec(st, env, file, *inner) {
                Some(def) => match crate::def::kind_of_spec(env.tables, file, *inner) {
                    Some(NodeKind::TypePath { path: _, generic_args }) => {
                        let (st, pins) = dyn_pins_spec(st, env, file, generic_args, (fuel - 1) as u64);
                        (st, Ty::Dyn { def: def, assoc: Box::new(crate::subst::sort_named_spec(pins)) })
                    },
                    _ => (st, Ty::Dyn { def: def, assoc: Box::new(List::Nil) }),
                },
                None => (st, Ty::Error),
            },
            Some(NodeKind::StructType { generics, kind }) => anon_struct_ty_spec(
                st,
                env,
                file,
                node,
                generics,
                kind,
                (fuel - 1) as u64,
            ),
            Some(NodeKind::DistinctType { inner }) => ty_from_node_in_spec(
                st,
                env,
                file,
                *inner,
                (fuel - 1) as u64,
            ),
            Some(NodeKind::TypePath { path: _, generic_args }) => typepath_ty_spec(
                st,
                env,
                file,
                node,
                generic_args,
                (fuel - 1) as u64,
            ),
            Some(NodeKind::GenericApply { base, args }) => typepath_ty_spec(
                st,
                env,
                file,
                *base,
                args,
                (fuel - 1) as u64,
            ),
            Some(NodeKind::Path { .. }) => typepath_ty_spec(
                st,
                env,
                file,
                node,
                &List::Nil,
                (fuel - 1) as u64,
            ),
            Some(NodeKind::FieldAccess { .. }) => typepath_ty_spec(
                st,
                env,
                file,
                node,
                &List::Nil,
                (fuel - 1) as u64,
            ),
            Some(NodeKind::Tuple { elems }) => tuple_from_nodes_spec(st, env, file, elems, (fuel - 1) as u64),
            _ => (st, Ty::Error),
        }
    }
}

/// [`Inferer::tuple_from_nodes`], as a mathematical function.
pub open spec fn tuple_from_nodes_spec(
    st: InfererV,
    env: &InferCx,
    file: FileId,
    elems: &List<NodeId>,
    fuel: u64,
) -> (InfererV, Ty)
    decreases fuel,
{
    if fuel == 0 {
        (crate::unify::give_up_spec(st), Ty::Error)
    } else {
        if crate::list::is_empty_spec(elems) {
            (st, Ty::Void)
        } else {
            let (st, ts) = tys_from_nodes_spec(st, env, elems, file, (fuel - 1) as u64);
            (st, Ty::Tuple(Box::new(ts)))
        }
    }
}

/// [`Inferer::dyn_pins`], as a mathematical function.
pub open spec fn dyn_pins_spec(
    st: InfererV,
    env: &InferCx,
    file: FileId,
    l: &List<NodeId>,
    fuel: u64,
) -> (InfererV, List<(Symbol, Ty)>)
    decreases fuel, l,
{
    if fuel == 0 {
        (crate::unify::give_up_spec(st), List::Nil)
    } else {
        match l {
            List::Nil => (st, List::Nil),
            List::Cons(a, rest) => match crate::def::kind_of_spec(env.tables, file, *a) {
                Some(NodeKind::AssocBinding { name, ty }) => {
                    let (st, t) = ty_from_node_in_spec(st, env, file, *ty, (fuel - 1) as u64);
                    let (st, more) = dyn_pins_spec(st, env, file, rest, fuel);
                    (st, List::Cons(((*name), t), Box::new(more)))
                },
                _ => {
                    let st = crate::unify::report_in_spec(
                        st,
                        env,
                        file,
                        *a,
                        crate::diag::say_spec(
                            "a trait object pins associated types (`dyn T.<Item = i32>`) and takes no other arguments",
                        ),
                    );
                    dyn_pins_spec(st, env, file, rest, fuel)
                },
            },
        }
    }
}

/// [`Inferer::anon_fields`], as a mathematical function.
pub open spec fn anon_fields_spec(
    st: InfererV,
    env: &InferCx,
    file: FileId,
    l: &List<NodeId>,
    seen: List<(Symbol, Ty)>,
    fuel: u64,
) -> (InfererV, Option<List<(Symbol, Ty)>>)
    decreases fuel, l,
{
    if fuel == 0 {
        (crate::unify::give_up_spec(st), None)
    } else {
        match l {
            List::Nil => (st, Some(seen)),
            List::Cons(m, rest) => match crate::def::kind_of_spec(env.tables, file, *m) {
                Some(NodeKind::Field { name, ty }) => if crate::ty::find_named_spec(&seen, name).is_some() {
                    let st = crate::unify::report_in_spec(
                        st,
                        env,
                        file,
                        *m,
                        crate::diag::say_name_spec("duplicate field `", name, "`"),
                    );
                    (st, None)
                } else {
                    let (st, t) = ty_from_node_in_spec(st, env, file, *ty, (fuel - 1) as u64);
                    anon_fields_spec(
                        st,
                        env,
                        file,
                        rest,
                        crate::list::append_spec(seen, crate::list::single_spec(((*name), t))),
                        fuel,
                    )
                },
                _ => anon_fields_spec(st, env, file, rest, seen, fuel),
            },
        }
    }
}

/// [`Inferer::anon_struct_ty`], as a mathematical function.
pub open spec fn anon_struct_ty_spec(
    st: InfererV,
    env: &InferCx,
    file: FileId,
    node: NodeId,
    generics: &List<NodeId>,
    kind: &StructKind,
    fuel: u64,
) -> (InfererV, Ty)
    decreases fuel,
{
    if fuel == 0 {
        (crate::unify::give_up_spec(st), Ty::Error)
    } else {
        match generics {
            List::Cons(g, _) => {
                let st = crate::unify::report_in_spec(
                    st,
                    env,
                    file,
                    *g,
                    crate::diag::say_spec(
                        "an anonymous `struct` cannot be generic: only a declared type takes parameters",
                    ),
                );
                (st, Ty::Error)
            },
            List::Nil => match kind {
                StructKind::Record(ids) => {
                    let (st, fields) = anon_fields_spec(st, env, file, ids, List::Nil, (fuel - 1) as u64);
                    match fields {
                        Some(fs) => (st, Ty::Struct(Box::new(crate::subst::sort_named_spec(fs)))),
                        None => (st, Ty::Error),
                    }
                },
                StructKind::Unit => (st, Ty::Struct(Box::new(List::Nil))),
                StructKind::Tuple(_) => {
                    let st = crate::unify::report_in_spec(
                        st,
                        env,
                        file,
                        node,
                        crate::diag::say_spec(
                            "an anonymous `struct` has named fields: write the tuple type `(A, B)`                      for a positional one",
                        ),
                    );
                    (st, Ty::Error)
                },
            },
        }
    }
}

/// [`int_to_width`], as a mathematical function.
pub open spec fn int_to_width_spec(n: &Int) -> Option<u16> {
    match crate::bigint::int_to_i128_spec(n) {
        Some(v) => if 1 <= v && v <= 65535 {
            Some(v as u16)
        } else {
            None
        },
        None => None,
    }
}

/// A number as a width, where it is one.
pub fn int_to_width(n: &Int) -> (r: Option<u16>)
    ensures
        r == int_to_width_spec(n),
        match r { Some(w) => n.value() == w && 1 <= w, None => !(1 <= n.value() <= 65535) },
{
    match int_to_i128(n) {
        Some(v) => if 1 <= v && v <= 65535 {
            Some(v as u16)
        } else {
            None
        },
        None => None,
    }
}

/// [`slot_ty`], as a mathematical function.
pub open spec fn slot_ty_spec(want: &Ty) -> Ty {
    match want {
        Ty::ComptimeInt => crate::ty::int_ty_spec(16, false),
        _ => (*want),
    }
}

/// The type a slot's complaints name: a width is read at no type of its own, and
/// a parameter in its place is a `u16`.
pub fn slot_ty(want: &Ty) -> (r: Ty)
    ensures
        r == slot_ty_spec(want),
{
    match want {
        Ty::ComptimeInt => int_ty(16, false),
        _ => dup_ty(want),
    }
}

/// [`Inferer::int_family_ty`], as a mathematical function.
pub open spec fn int_family_ty_spec(
    st: InfererV,
    env: &InferCx,
    file: FileId,
    node: NodeId,
    signed: bool,
    generic_args: &List<NodeId>,
    fuel: u64,
) -> (InfererV, Ty)
    decreases fuel,
{
    if fuel == 0 {
        (crate::unify::give_up_spec(st), Ty::Error)
    } else {
        let family: &'static str = if signed {
            "int"
        } else {
            "uint"
        };
        match only_node_spec(generic_args) {
            Some(arg) => {
                let (st, read) = const_value_in_spec(
                    st,
                    env,
                    file,
                    arg,
                    &Ty::ComptimeInt,
                    "an integer width",
                    0,
                    (fuel - 1) as u64,
                );
                match read {
                    Const::Value(_, ConstValue::Int(n)) => match int_to_width_spec(&n) {
                        Some(w) => if w == 1 && !signed {
                            (st, Ty::Bool)
                        } else if w == 1 {
                            let st = crate::unify::report_in_spec(
                                st,
                                env,
                                file,
                                arg,
                                crate::diag::say_spec("a 1-bit signed integer is not a type"),
                            );
                            (st, Ty::Error)
                        } else {
                            (st, Ty::Int { signed: signed, width: Const::Width(w) })
                        },
                        None => {
                            let st = crate::unify::report_in_spec(
                                st,
                                env,
                                file,
                                arg,
                                crate::list::list3_spec(
                                    Part::Text("an integer width must be between 1 and 65535, not `"),
                                    Part::Int(n),
                                    Part::Text("`"),
                                ),
                            );
                            (st, Ty::Error)
                        },
                    },
                    other => (st, Ty::Int { signed: signed, width: other }),
                }
            },
            _ => {
                let st = crate::unify::report_in_spec(
                    st,
                    env,
                    file,
                    node,
                    crate::list::list5_spec(
                        Part::Text("`"),
                        Part::Text(family),
                        Part::Text("` is a family of integer types and needs its width: write `"),
                        Part::Text(family),
                        Part::Text(".<N>`"),
                    ),
                );
                (st, Ty::Error)
            },
        }
    }
}

/// [`only_node`], as a mathematical function.
pub open spec fn only_node_spec(l: &List<NodeId>) -> Option<NodeId> {
    match l {
        List::Cons(h, t) => if crate::list::is_empty_spec(t) {
            Some(*h)
        } else {
            None
        },
        List::Nil => None,
    }
}

/// The one element of a list that has one.
pub fn only_node(l: &List<NodeId>) -> (r: Option<NodeId>)
    ensures
        r == only_node_spec(l),
{
    match l {
        List::Cons(h, t) => if is_empty(t) {
            Some(*h)
        } else {
            None
        },
        List::Nil => None,
    }
}

/// [`missing_count`], as a mathematical function.
pub open spec fn missing_count_spec(have: &List<Ty>, want: &List<DefId>) -> u64 {
    let h = crate::list::list_len_spec(have);
    let w = crate::list::list_len_spec(want);
    if h < w {
        (w - h) as u64
    } else {
        0
    }
}

/// How many more elements one list has than another.
pub fn missing_count(have: &List<Ty>, want: &List<DefId>) -> (r: u64)
    ensures
        r == missing_count_spec(have, want),
{
    let h = list_len(have);
    let w = list_len(want);
    if h < w {
        (w - h) as u64
    } else {
        0
    }
}

/// [`Inferer::typepath_ty`], as a mathematical function.
pub open spec fn typepath_ty_spec(
    st: InfererV,
    env: &InferCx,
    file: FileId,
    node: NodeId,
    generic_args: &List<NodeId>,
    fuel: u64,
) -> (InfererV, Ty)
    decreases fuel,
{
    if fuel == 0 {
        (crate::unify::give_up_spec(st), Ty::Error)
    } else {
        match crate::decls::resolved_def_in_spec(st, env, file, node) {
            Some(def) => {
                let kind = crate::def::def_kind_spec(env.tables, def);
                match kind {
                    DefKind::Primitive => {
                        let name = crate::def::def_name_spec(env.tables, def);
                        if crate::symbol::sym_is_spec(&name, "int") {
                            int_family_ty_spec(st, env, file, node, true, generic_args, (fuel - 1) as u64)
                        } else if crate::symbol::sym_is_spec(&name, "uint") {
                            int_family_ty_spec(st, env, file, node, false, generic_args, (fuel - 1) as u64)
                        } else {
                            match primitive_ty_spec(&name) {
                                Some(t) => (st, t),
                                None => (st, Ty::Error),
                            }
                        }
                    },
                    DefKind::Struct => applied_ty_spec(st, env, file, def, generic_args, (fuel - 1) as u64),
                    DefKind::Enum => applied_ty_spec(st, env, file, def, generic_args, (fuel - 1) as u64),
                    DefKind::Trait => applied_ty_spec(st, env, file, def, generic_args, (fuel - 1) as u64),
                    DefKind::TypeAlias => match self_assoc_ty_spec(st, env, file, node, def) {
                        Some(t) => (st, t),
                        None => expand_alias_spec(st, env, def, (fuel - 1) as u64),
                    },
                    DefKind::Const => {
                        let (st, t) = const_alias_ty_spec(st, env, def, (fuel - 1) as u64);
                        match t {
                            Some(t) => (st, t),
                            None => (st, Ty::Error),
                        }
                    },
                    DefKind::TypeParam => param_ty_spec(st, env, def, (fuel - 1) as u64),
                    DefKind::ConstParam => {
                        let st = crate::unify::report_in_spec(
                            st,
                            env,
                            file,
                            node,
                            crate::diag::say_name_spec(
                                "`",
                                &crate::def::def_name_spec(env.tables, def),
                                "` is a `const` generic parameter — a value, not a type",
                            ),
                        );
                        (st, Ty::Error)
                    },
                    DefKind::External => (st, Ty::Error),
                    _ => {
                        let st = if crate::def::has_ast_spec(env.tables, file)
                            && crate::unify::get_ty_path_reported_spec(st, file, node).is_none() {
                            let st = crate::unify::set_ty_path_reported_spec(st, file, node, TyPathReported);
                            let name = written_path_in_spec(env.tables, file, node, def, DEPTH_LIMIT);
                            let msg = crate::list::list5_spec(
                                Part::Text("`"),
                                Part::Name(name),
                                Part::Text("` is a "),
                                Part::Text(crate::diag::kind_label_spec(kind)),
                                Part::Text(", not a type"),
                            );
                            if kind == DefKind::Namespace && !has_dot_spec(&name.text) {
                                let st = crate::unify::report_with_note_in_spec(
                                    st,
                                    env,
                                    file,
                                    node,
                                    msg,
                                    crate::diag::say_name_spec(
                                        "a binding of `",
                                        &name,
                                        "` shadows any type of that name — bind the import under another name to write both",
                                    ),
                                );
                                st
                            } else {
                                let st = crate::unify::report_in_spec(st, env, file, node, msg);
                                st
                            }
                        } else {
                            st
                        };
                        (st, Ty::Error)
                    },
                }
            },
            _ => {
                (st, Ty::Error)
            },
        }
    }
}

/// [`Inferer::applied_ty`], as a mathematical function.
pub open spec fn applied_ty_spec(
    st: InfererV,
    env: &InferCx,
    file: FileId,
    def: DefId,
    generic_args: &List<NodeId>,
    fuel: u64,
) -> (InfererV, Ty)
    decreases fuel,
{
    if fuel == 0 {
        (crate::unify::give_up_spec(st), Ty::Error)
    } else {
        let (st, args) = tys_from_nodes_spec(
            st,
            env,
            &plain_args_spec(env.tables, file, generic_args),
            file,
            (fuel - 1) as u64,
        );
        let st = record_generic_args_in_spec(st, env, file, generic_args, (fuel - 1) as u64);
        let declared = crate::decls::declared_generics_spec(st, env, def);
        let (st, rest) = crate::unify::fresh_n_spec(st, missing_count_spec(&args, &declared));
        (st, Ty::Nominal { def: def, args: Box::new(crate::list::append_spec(args, rest)) })
    }
}

/// [`has_dot`], as a mathematical function.
pub open spec fn has_dot_spec(t: &List<char>) -> bool
    decreases t,
{
    match t {
        List::Nil => false,
        List::Cons(c, rest) => *c == '.' || has_dot_spec(rest),
    }
}

/// Whether text holds a dot.
pub fn has_dot(t: &List<char>) -> (r: bool)
    ensures
        r == has_dot_spec(t),
    decreases t,
{
    match t {
        List::Nil => false,
        List::Cons(c, rest) => *c == '.' || has_dot(rest),
    }
}

/// [`dotted`], as a mathematical function.
pub open spec fn dotted_spec(l: &List<Symbol>) -> List<char>
    decreases l,
{
    match l {
        List::Nil => List::Nil,
        List::Cons(h, t) => if crate::list::is_empty_spec(t) {
            h.text
        } else {
            crate::list::append_spec(h.text, List::Cons('.', Box::new(dotted_spec(t))))
        },
    }
}

/// Names with dots between them.
pub fn dotted(l: &List<Symbol>) -> (r: List<char>)
    ensures
        r == dotted_spec(l),
    decreases l,
{
    match l {
        List::Nil => List::Nil,
        List::Cons(h, t) => if is_empty(t) {
            dup_text(&h.text)
        } else {
            append(dup_text(&h.text), List::Cons('.', Box::new(dotted(t))))
        },
    }
}

/// [`written_path_in`], as a mathematical function.
pub open spec fn written_path_in_spec(t: &Tables, file: FileId, node: NodeId, def: DefId, fuel: u64) -> Symbol
    decreases fuel,
{
    if fuel == 0 {
        crate::def::def_name_spec(t, def)
    } else {
        let path = match crate::def::kind_of_spec(t, file, node) {
            Some(NodeKind::TypePath { path, generic_args: _ }) => *path,
            _ => node,
        };
        match crate::def::kind_of_spec(t, file, path) {
            Some(NodeKind::Path { segments }) => Symbol { text: dotted_spec(segments) },
            Some(NodeKind::FieldAccess { base, name }) => {
                let head = written_path_in_spec(t, file, *base, def, (fuel - 1) as u64);
                Symbol { text: crate::list::append_spec(head.text, List::Cons('.', Box::new(name.text))) }
            },
            _ => crate::def::def_name_spec(t, def),
        }
    }
}

/// The path as the program wrote it, or the definition's own name where nothing
/// was written to quote.
pub fn written_path_in(t: &Tables, file: FileId, node: NodeId, def: DefId, fuel: u64) -> (r: Symbol)
    ensures
        r == written_path_in_spec(t, file, node, def, fuel),
    decreases fuel,
{
    if fuel == 0 {
        return def_name(t, def);
    }
    let path = match kind_of(t, file, node) {
        Some(NodeKind::TypePath { path, generic_args: _ }) => *path,
        _ => node,
    };
    match kind_of(t, file, path) {
        Some(NodeKind::Path { segments }) => Symbol { text: dotted(segments) },
        Some(NodeKind::FieldAccess { base, name }) => {
            let head = written_path_in(t, file, *base, def, (fuel - 1) as u64);
            Symbol { text: append(head.text, List::Cons('.', Box::new(dup_text(&name.text)))) }
        },
        _ => def_name(t, def),
    }
}

/// [`heads_alias`], as a mathematical function.
pub open spec fn heads_alias_spec(k: DefKind) -> bool {
    crate::lower::names_type_kind_spec(k) || k == DefKind::Const
}

/// Whether a definition kind may head a binding that names a type.
pub fn heads_alias(k: DefKind) -> (r: bool)
    ensures
        r == heads_alias_spec(k),
{
    names_type_kind(k) || k == DefKind::Const
}

/// [`Inferer::const_alias_ty`], as a mathematical function.
pub open spec fn const_alias_ty_spec(
    st: InfererV,
    env: &InferCx,
    def: DefId,
    fuel: u64,
) -> (InfererV, Option<Ty>)
    decreases fuel,
{
    if fuel == 0 {
        (crate::unify::give_up_spec(st), None)
    } else {
        if crate::decls::has_decl_spec(env.tables, def) {
            (st, crate::decls::recorded_expansion_spec(env.tables, def))
        } else {
            if crate::def::def_in_spec(&st.alias_stack, def) {
                (st, None)
            } else {
                match crate::def::def_place_spec(env.tables, def) {
                    Some((file, node)) => {
                        match crate::def::kind_of_spec(env.tables, file, node) {
                            Some(NodeKind::ConstBind { pattern: _, rhs }) => {
                                match crate::def::kind_of_spec(env.tables, file, *rhs) {
                                    Some(NodeKind::Tuple { elems }) => if crate::list::is_empty_spec(elems)
                                        || !all_name_types_spec(st, env, file, elems, DEPTH_LIMIT) {
                                        (st, None)
                                    } else {
                                        let st = crate::unify::push_alias_spec(st, def);
                                        let (st, ty) = ty_from_node_in_spec(
                                            st,
                                            env,
                                            file,
                                            *rhs,
                                            (fuel - 1) as u64,
                                        );
                                        let st = crate::unify::pop_alias_spec(st);
                                        (st, Some(ty))
                                    },
                                    Some(NodeKind::GenericApply { base, args }) => alias_of_head_spec(
                                        st,
                                        env,
                                        file,
                                        def,
                                        *base,
                                        args,
                                        (fuel - 1) as u64,
                                    ),
                                    Some(NodeKind::Path { .. }) => alias_of_head_spec(
                                        st,
                                        env,
                                        file,
                                        def,
                                        *rhs,
                                        &List::Nil,
                                        (fuel - 1) as u64,
                                    ),
                                    Some(NodeKind::FieldAccess { .. }) => alias_of_head_spec(
                                        st,
                                        env,
                                        file,
                                        def,
                                        *rhs,
                                        &List::Nil,
                                        (fuel - 1) as u64,
                                    ),
                                    _ => (st, None),
                                }
                            },
                            _ => {
                                (st, None)
                            },
                        }
                    },
                    _ => {
                        (st, None)
                    },
                }
            }
        }
    }
}

/// [`Inferer::alias_of_head`], as a mathematical function.
pub open spec fn alias_of_head_spec(
    st: InfererV,
    env: &InferCx,
    file: FileId,
    def: DefId,
    head: NodeId,
    args: &List<NodeId>,
    fuel: u64,
) -> (InfererV, Option<Ty>)
    decreases fuel,
{
    if fuel == 0 {
        (crate::unify::give_up_spec(st), None)
    } else {
        match crate::decls::resolved_def_in_spec(st, env, file, head) {
            Some(head_def) => if heads_alias_spec(crate::def::def_kind_spec(env.tables, head_def)) {
                let st = crate::unify::push_alias_spec(st, def);
                let (st, ty) = typepath_ty_spec(st, env, file, head, args, (fuel - 1) as u64);
                let st = crate::unify::pop_alias_spec(st);
                (st, Some(ty))
            } else {
                (st, None)
            },
            None => (st, None),
        }
    }
}

/// [`Inferer::names_type_in`], as a mathematical function.
pub open spec fn names_type_in_spec(
    st: InfererV,
    env: &InferCx,
    file: FileId,
    node: NodeId,
    fuel: u64,
) -> bool
    decreases fuel,
{
    if fuel == 0 {
        false
    } else {
        match crate::def::kind_of_spec(env.tables, file, node) {
            Some(NodeKind::GenericApply { base, args: _ }) => head_names_type_spec(st, env, file, *base),
            Some(NodeKind::Path { .. }) => head_names_type_spec(st, env, file, node),
            Some(NodeKind::FieldAccess { .. }) => head_names_type_spec(st, env, file, node),
            Some(NodeKind::Tuple { elems }) => !crate::list::is_empty_spec(elems)
                && all_name_types_spec(st, env, file, elems, (fuel - 1) as u64),
            _ => false,
        }
    }
}

/// [`Inferer::head_names_type`], as a mathematical function.
pub open spec fn head_names_type_spec(st: InfererV, env: &InferCx, file: FileId, node: NodeId) -> bool {
    match crate::decls::resolved_def_in_spec(st, env, file, node) {
        Some(d) => crate::lower::names_type_kind_spec(
            crate::def::def_kind_spec(env.tables, crate::def::resolve_alias_spec(env.tables, d)),
        ),
        None => false,
    }
}

/// [`Inferer::all_name_types`], as a mathematical function.
pub open spec fn all_name_types_spec(
    st: InfererV,
    env: &InferCx,
    file: FileId,
    l: &List<NodeId>,
    fuel: u64,
) -> bool
    decreases fuel, l,
{
    if fuel == 0 {
        false
    } else {
        match l {
            List::Nil => true,
            List::Cons(h, t) => names_type_in_spec(st, env, file, *h, (fuel - 1) as u64)
                && all_name_types_spec(st, env, file, t, fuel),
        }
    }
}

/// [`before_last`], as a mathematical function.
pub open spec fn before_last_spec(l: &List<Resolution>) -> Option<Resolution>
    decreases l,
{
    match l {
        List::Cons(a, t) => match &**t {
            List::Cons(_, u) => if crate::list::is_empty_spec(u) {
                Some(*a)
            } else {
                before_last_spec(t)
            },
            List::Nil => None,
        },
        List::Nil => None,
    }
}

/// The second to last element of a list.
pub fn before_last(l: &List<Resolution>) -> (r: Option<Resolution>)
    ensures
        r == before_last_spec(l),
    decreases l,
{
    match l {
        List::Cons(a, t) => match &**t {
            List::Cons(_, u) => if is_empty(u) {
                Some(*a)
            } else {
                before_last(t)
            },
            List::Nil => None,
        },
        List::Nil => None,
    }
}

/// `Self.Item` written inside the trait that declares `Item`: the associated type
/// itself, kept so that it can be substituted.
pub open spec fn self_assoc_ty_spec(
    st: InfererV,
    env: &InferCx,
    file: FileId,
    node: NodeId,
    def: DefId,
) -> Option<Ty> {
    match crate::def::get_def_spec(env.tables, def) {
        Some(d) => match (d.parent, &d.assoc_bounds, crate::unify::get_path_res_spec(st, file, node)) {
            (Some(owner), Some(_), Some(segs)) => match before_last_spec(&segs) {
                Some(Resolution::Def(b)) => if crate::def::def_kind_spec(env.tables, owner) == DefKind::Trait
                    && crate::def::resolve_alias_spec(env.tables, b) == owner {
                    Some(crate::ty::nominal_spec(def))
                } else {
                    None
                },
                _ => None,
            },
            _ => None,
        },
        None => None,
    }
}

impl Inferer {
    /// `Self.Item` written inside the trait that declares `Item`: the associated
    /// type itself, kept so that it can be substituted.
    pub fn self_assoc_ty(&self, env: &InferCx, file: FileId, node: NodeId, def: DefId) -> (r: Option<Ty>)
        ensures
            r == self_assoc_ty_spec(self@, env, file, node, def),
    {
        match get_def(env.tables, def) {
            Some(d) => match (d.parent, &d.assoc_bounds, self.get_path_res(file, node)) {
                (Some(owner), Some(_), Some(segs)) => match before_last(&segs) {
                    Some(Resolution::Def(b)) => if def_kind(env.tables, owner) == DefKind::Trait
                        && resolve_alias(env.tables, b) == owner {
                        Some(nominal(def))
                    } else {
                        None
                    },
                    _ => None,
                },
                _ => None,
            },
            None => None,
        }
    }
}

/// [`Inferer::expand_alias`], as a mathematical function.
pub open spec fn expand_alias_spec(st: InfererV, env: &InferCx, def: DefId, fuel: u64) -> (InfererV, Ty)
    decreases fuel,
{
    if fuel == 0 {
        (crate::unify::give_up_spec(st), Ty::Error)
    } else {
        if crate::decls::has_decl_spec(env.tables, def) {
            match crate::decls::recorded_expansion_spec(env.tables, def) {
                Some(t) => (st, t),
                None => (st, crate::ty::nominal_spec(def)),
            }
        } else {
            if crate::def::def_in_spec(&st.alias_stack, def) {
                (st, crate::ty::nominal_spec(def))
            } else {
                match crate::def::def_place_spec(env.tables, def) {
                    Some((file, node)) => {
                        let rhs = crate::def::bound_rhs_spec(env.tables, file, node);
                        match crate::def::kind_of_spec(env.tables, file, rhs) {
                            Some(NodeKind::DistinctType { .. }) => (st, crate::ty::nominal_spec(def)),
                            Some(NodeKind::AssocType { .. }) => crate::unify::fresh_spec(st),
                            _ => {
                                let st = crate::unify::push_alias_spec(st, def);
                                let (st, ty) = ty_from_node_in_spec(st, env, file, rhs, (fuel - 1) as u64);
                                let st = crate::unify::pop_alias_spec(st);
                                (st, ty)
                            },
                        }
                    },
                    _ => {
                        (st, crate::ty::nominal_spec(def))
                    },
                }
            }
        }
    }
}

// Compile-time values.

/// [`Inferer::const_len_in`], as a mathematical function.
pub open spec fn const_len_in_spec(
    st: InfererV,
    env: &InferCx,
    file: FileId,
    node: NodeId,
    fuel: u64,
) -> (InfererV, Const)
    decreases fuel,
{
    if fuel == 0 {
        (crate::unify::give_up_spec(st), Const::Error)
    } else {
        let want = crate::unify::usize_ty_spec(st);
        const_value_in_spec(st, env, file, node, &want, "an array length", 0, (fuel - 1) as u64)
    }
}

/// [`Inferer::const_value_in`], as a mathematical function.
pub open spec fn const_value_in_spec(
    st: InfererV,
    env: &InferCx,
    file: FileId,
    node: NodeId,
    want: &Ty,
    what: &'static str,
    depth: u32,
    fuel: u64,
) -> (InfererV, Const)
    decreases fuel,
{
    if fuel == 0 {
        (crate::unify::give_up_spec(st), Const::Error)
    } else {
        if depth > 8 {
            let st = crate::unify::report_const_in_spec(
                st,
                env,
                file,
                node,
                crate::list::list2_spec(Part::Text(what), Part::Text(" may not refer to itself")),
            );
            (st, Const::Error)
        } else {
            match crate::def::kind_of_spec(env.tables, file, node) {
                Some(NodeKind::Lit(lit)) => const_from_value_spec(
                    st,
                    env,
                    file,
                    node,
                    lit_value_spec(lit),
                    want,
                    what,
                ),
                Some(NodeKind::TypeHole) => crate::unify::fresh_const_spec(st),
                Some(NodeKind::AssocConst { ty: _, default: Some(v) }) => {
                    const_value_in_spec(
                        st,
                        env,
                        file,
                        *v,
                        want,
                        what,
                        crate::unify::succ32_spec(depth),
                        (fuel - 1) as u64,
                    )
                },
                Some(NodeKind::Path { .. }) => const_of_name_spec(
                    st,
                    env,
                    file,
                    node,
                    want,
                    what,
                    depth,
                    (fuel - 1) as u64,
                ),
                Some(NodeKind::TypePath { .. }) => const_of_name_spec(
                    st,
                    env,
                    file,
                    node,
                    want,
                    what,
                    depth,
                    (fuel - 1) as u64,
                ),
                Some(NodeKind::FieldAccess { .. }) => if crate::decls::resolved_def_in_spec(st, env, file, node).is_some() {
                    const_of_name_spec(st, env, file, node, want, what, depth, (fuel - 1) as u64)
                } else {
                    const_of_expr_spec(st, env, file, node, want, what, depth, (fuel - 1) as u64)
                },
                _ => const_of_expr_spec(st, env, file, node, want, what, depth, (fuel - 1) as u64),
            }
        }
    }
}

/// [`Inferer::const_of_name`], as a mathematical function.
pub open spec fn const_of_name_spec(
    st: InfererV,
    env: &InferCx,
    file: FileId,
    node: NodeId,
    want: &Ty,
    what: &'static str,
    depth: u32,
    fuel: u64,
) -> (InfererV, Const)
    decreases fuel,
{
    if fuel == 0 {
        (crate::unify::give_up_spec(st), Const::Error)
    } else {
        match crate::decls::resolved_def_in_spec(st, env, file, node) {
            Some(def) => const_of_def_spec(st, env, file, node, def, want, what, depth, (fuel - 1) as u64),
            None => (st, Const::Error),
        }
    }
}

/// [`Inferer::const_of_expr`], as a mathematical function.
pub open spec fn const_of_expr_spec(
    st: InfererV,
    env: &InferCx,
    file: FileId,
    node: NodeId,
    want: &Ty,
    what: &'static str,
    depth: u32,
    fuel: u64,
) -> (InfererV, Const)
    decreases fuel,
{
    if fuel == 0 {
        (crate::unify::give_up_spec(st), Const::Error)
    } else {
        let (st, v) = const_operand_spec(st, env, file, node, what, depth, (fuel - 1) as u64);
        match v {
            Some(v) => const_from_value_spec(st, env, file, node, v, want, what),
            None => (st, Const::Error),
        }
    }
}

/// [`lit_value`], as a mathematical function.
pub open spec fn lit_value_spec(lit: &Lit) -> ConstValue {
    match lit {
        Lit::Int(n) => ConstValue::Int((*n)),
        Lit::Float(b) => ConstValue::Float(*b),
        Lit::Bool(b) => ConstValue::Bool(*b),
        Lit::Char(c) => ConstValue::Char(*c),
        Lit::Str(t) => ConstValue::Str((*t)),
        Lit::Bytes(b) => ConstValue::Bytes((*b)),
    }
}

/// The value of a literal.
pub fn lit_value(lit: &Lit) -> (r: ConstValue)
    ensures
        r == lit_value_spec(lit),
{
    match lit {
        Lit::Int(n) => ConstValue::Int(dup_int(n)),
        Lit::Float(b) => ConstValue::Float(*b),
        Lit::Bool(b) => ConstValue::Bool(*b),
        Lit::Char(c) => ConstValue::Char(*c),
        Lit::Str(t) => ConstValue::Str(dup_text(t)),
        Lit::Bytes(b) => ConstValue::Bytes(dup_digits(b)),
    }
}

/// Whether something was said, or a slot had been complained about before.
pub open spec fn spoken(before: InfererV, after: InfererV) -> bool {
    ||| before.diags.len() < after.diags.len()
    ||| exists|k: u64| #[trigger] before.facts.const_slot_reported.dom().contains(k)
}

/// Whether nothing changed but what was said, and which slots it was said about.
pub open spec fn only_marked(before: InfererV, after: InfererV) -> bool {
    after == (InfererV {
        diags: after.diags,
        deep: after.deep,
        facts: FactsV { const_slot_reported: after.facts.const_slot_reported, ..before.facts },
        ..before
    })
}

/// Whether no slot was marked as complained about unless something was said.
pub open spec fn quiet_keeps_marks(before: InfererV, after: InfererV) -> bool {
    before.diags.len() == after.diags.len() ==> before.facts.const_slot_reported
        == after.facts.const_slot_reported
}

/// [`Inferer::const_operand`], as a mathematical function.
pub open spec fn const_operand_spec(
    st: InfererV,
    env: &InferCx,
    file: FileId,
    node: NodeId,
    what: &'static str,
    depth: u32,
    fuel: u64,
) -> (InfererV, Option<ConstValue>)
    decreases fuel,
{
    if fuel == 0 {
        (crate::unify::give_up_spec(st), None)
    } else {
        if depth > 32 {
            let st = crate::unify::report_const_in_spec(
                st,
                env,
                file,
                node,
                crate::list::list2_spec(Part::Text(what), Part::Text(" may not refer to itself")),
            );
            (st, None)
        } else {
            match crate::def::kind_of_spec(env.tables, file, node) {
                Some(NodeKind::Lit(lit)) => (st, Some(lit_value_spec(lit))),
                Some(NodeKind::AssocConst { ty: _, default: Some(v) }) => {
                    const_operand_spec(
                        st,
                        env,
                        file,
                        *v,
                        what,
                        crate::unify::succ32_spec(depth),
                        (fuel - 1) as u64,
                    )
                },
                Some(NodeKind::Unary { op, operand }) => {
                    let (st, v) = const_operand_spec(
                        st,
                        env,
                        file,
                        *operand,
                        what,
                        crate::unify::succ32_spec(depth),
                        (fuel - 1) as u64,
                    );
                    match v {
                        Some(v) => folded_spec(st, env, file, node, crate::fold::unary_op_spec(*op, &v)),
                        None => (st, None),
                    }
                },
                Some(NodeKind::Binary { op, lhs, rhs }) => const_binary_spec(
                    st,
                    env,
                    file,
                    node,
                    *op,
                    *lhs,
                    *rhs,
                    what,
                    depth,
                    (fuel - 1) as u64,
                ),
                Some(NodeKind::Path { .. }) => const_name_operand_spec(
                    st,
                    env,
                    file,
                    node,
                    what,
                    depth,
                    (fuel - 1) as u64,
                ),
                Some(NodeKind::TypePath { .. }) => const_name_operand_spec(
                    st,
                    env,
                    file,
                    node,
                    what,
                    depth,
                    (fuel - 1) as u64,
                ),
                Some(NodeKind::FieldAccess { .. }) => const_name_operand_spec(
                    st,
                    env,
                    file,
                    node,
                    what,
                    depth,
                    (fuel - 1) as u64,
                ),
                Some(NodeKind::Call { .. }) => {
                    let st = crate::unify::report_const_in_spec(
                        st,
                        env,
                        file,
                        node,
                        crate::list::list3_spec(
                            Part::Text("a call cannot be evaluated inside "),
                            Part::Text(what),
                            Part::Text(
                                ": a function's body is not compiled until after the types are known, and this is one of them",
                            ),
                        ),
                    );
                    (st, None)
                },
                _ => {
                    let st = not_constant_spec(st, env, file, node, what);
                    (st, None)
                },
            }
        }
    }
}

/// [`Inferer::not_constant`], as a mathematical function.
pub open spec fn not_constant_spec(
    st: InfererV,
    env: &InferCx,
    file: FileId,
    node: NodeId,
    what: &'static str,
) -> InfererV {
    let st = crate::unify::report_const_in_spec(
        st,
        env,
        file,
        node,
        crate::list::list2_spec(
            Part::Text(what),
            Part::Text(
                " must be a literal, a constant, a `const` generic parameter, or an expression built from those",
            ),
        ),
    );
    st
}

/// [`Inferer::folded`], as a mathematical function.
pub open spec fn folded_spec(
    st: InfererV,
    env: &InferCx,
    file: FileId,
    node: NodeId,
    f: Folded,
) -> (InfererV, Option<ConstValue>) {
    match f {
        Folded::Value(v) => (st, Some(v)),
        Folded::Fail(msg) => {
            let st = crate::unify::report_const_in_spec(st, env, file, node, msg);
            (st, None)
        },
    }
}

/// [`Inferer::const_binary`], as a mathematical function.
pub open spec fn const_binary_spec(
    st: InfererV,
    env: &InferCx,
    file: FileId,
    node: NodeId,
    op: BinOp,
    lhs: NodeId,
    rhs: NodeId,
    what: &'static str,
    depth: u32,
    fuel: u64,
) -> (InfererV, Option<ConstValue>)
    decreases fuel,
{
    if fuel == 0 {
        (crate::unify::give_up_spec(st), None)
    } else {
        if op == BinOp::And || op == BinOp::Or {
            let (st, a) = const_truth_spec(
                st,
                env,
                file,
                lhs,
                what,
                crate::unify::succ32_spec(depth),
                (fuel - 1) as u64,
            );
            match a {
                Some(a) => if (op == BinOp::And) != a {
                    (st, Some(ConstValue::Bool(a)))
                } else {
                    let (st, b) = const_truth_spec(
                        st,
                        env,
                        file,
                        rhs,
                        what,
                        crate::unify::succ32_spec(depth),
                        (fuel - 1) as u64,
                    );
                    match b {
                        Some(b) => (st, Some(ConstValue::Bool(b))),
                        None => (st, None),
                    }
                },
                None => (st, None),
            }
        } else {
            let (st, a) = const_operand_spec(
                st,
                env,
                file,
                lhs,
                what,
                crate::unify::succ32_spec(depth),
                (fuel - 1) as u64,
            );
            match a {
                Some(a) => {
                    let (st, b) = const_operand_spec(
                        st,
                        env,
                        file,
                        rhs,
                        what,
                        crate::unify::succ32_spec(depth),
                        (fuel - 1) as u64,
                    );
                    match b {
                        Some(b) => folded_spec(
                            st,
                            env,
                            file,
                            node,
                            crate::fold::binary_values_spec(op, &a, &b),
                        ),
                        None => (st, None),
                    }
                },
                None => (st, None),
            }
        }
    }
}

/// [`Inferer::const_name_operand`], as a mathematical function.
pub open spec fn const_name_operand_spec(
    st: InfererV,
    env: &InferCx,
    file: FileId,
    node: NodeId,
    what: &'static str,
    depth: u32,
    fuel: u64,
) -> (InfererV, Option<ConstValue>)
    decreases fuel,
{
    if fuel == 0 {
        (crate::unify::give_up_spec(st), None)
    } else {
        match crate::decls::resolved_def_in_spec(st, env, file, node) {
            Some(named) => {
                let def = crate::def::resolve_alias_spec(env.tables, named);
                match crate::def::def_kind_spec(env.tables, def) {
                    DefKind::Const => match crate::decls::recorded_const_value_spec(env.tables, def) {
                        Some(v) => (st, Some(v)),
                        None => match const_rhs_of_spec(env.tables, def) {
                            Some((cfile, rhs)) => const_operand_spec(
                                st,
                                env,
                                cfile,
                                rhs,
                                what,
                                crate::unify::succ32_spec(depth),
                                (fuel - 1) as u64,
                            ),
                            None => {
                                let st = not_constant_spec(st, env, file, node, what);
                                (st, None)
                            },
                        },
                    },
                    DefKind::ConstParam => {
                        let st = crate::unify::report_const_in_spec(
                            st,
                            env,
                            file,
                            node,
                            crate::list::list5_spec(
                                Part::Text("`"),
                                Part::Name(crate::def::def_name_spec(env.tables, def)),
                                Part::Text(
                                    "` is a `const` generic parameter, so it cannot be combined with an operator in ",
                                ),
                                Part::Text(what),
                                Part::Text(": its value is not known until the function is instantiated"),
                            ),
                        );
                        (st, None)
                    },
                    other => {
                        let st = crate::unify::report_const_in_spec(
                            st,
                            env,
                            file,
                            node,
                            crate::list::list7_spec(
                                Part::Text("`"),
                                Part::Path(def),
                                Part::Text("` is a "),
                                Part::Text(crate::diag::kind_label_spec(other)),
                                Part::Text(" — "),
                                Part::Text(what),
                                Part::Text(" must be built from constant values"),
                            ),
                        );
                        (st, None)
                    },
                }
            },
            _ => {
                let st = not_constant_spec(st, env, file, node, what);
                (st, None)
            },
        }
    }
}

/// [`const_rhs_of`], as a mathematical function.
pub open spec fn const_rhs_of_spec(t: &Tables, def: DefId) -> Option<(FileId, NodeId)> {
    match crate::def::def_place_spec(t, def) {
        Some((file, node)) => match crate::def::kind_of_spec(t, file, node) {
            Some(NodeKind::ConstBind { pattern: _, rhs }) => Some((file, *rhs)),
            Some(NodeKind::AssocConst { ty: _, default: Some(rhs) }) => Some((file, *rhs)),
            _ => None,
        },
        None => None,
    }
}

/// Where a constant's right-hand side is. It is written either way: bound
/// directly, or kept apart from a type written before the binder.
pub fn const_rhs_of(t: &Tables, def: DefId) -> (r: Option<(FileId, NodeId)>)
    ensures
        r == const_rhs_of_spec(t, def),
{
    match def_place(t, def) {
        Some((file, node)) => match kind_of(t, file, node) {
            Some(NodeKind::ConstBind { pattern: _, rhs }) => Some((file, *rhs)),
            Some(NodeKind::AssocConst { ty: _, default: Some(rhs) }) => Some((file, *rhs)),
            _ => None,
        },
        None => None,
    }
}

/// [`Inferer::const_truth`], as a mathematical function.
pub open spec fn const_truth_spec(
    st: InfererV,
    env: &InferCx,
    file: FileId,
    node: NodeId,
    what: &'static str,
    depth: u32,
    fuel: u64,
) -> (InfererV, Option<bool>)
    decreases fuel,
{
    if fuel == 0 {
        (crate::unify::give_up_spec(st), None)
    } else {
        let (st, v) = const_operand_spec(st, env, file, node, what, depth, (fuel - 1) as u64);
        match v {
            Some(ConstValue::Bool(b)) => (st, Some(b)),
            Some(other) => {
                let st = crate::unify::report_const_in_spec(
                    st,
                    env,
                    file,
                    node,
                    crate::list::list3_spec(
                        Part::Text("`"),
                        Part::Value(other),
                        Part::Text("` is not a `bool`"),
                    ),
                );
                (st, None)
            },
            None => (st, None),
        }
    }
}

/// [`Inferer::const_from_value`], as a mathematical function.
pub open spec fn const_from_value_spec(
    st: InfererV,
    env: &InferCx,
    file: FileId,
    node: NodeId,
    value: ConstValue,
    want: &Ty,
    what: &'static str,
) -> (InfererV, Const) {
    let repr = crate::unify::numeric_repr_spec(st, want);
    match (&value, &repr) {
        (ConstValue::Int(n), Ty::Int { .. }) => {
            let fits = match crate::subst::int_parts_spec(&repr) {
                Some((signed, bits)) => crate::bigint::int_fits_spec(n, signed, bits),
                None => true,
            };
            if fits {
                (st, Const::Value(Box::new((*want)), value))
            } else {
                let st = crate::unify::report_const_in_spec(
                    st,
                    env,
                    file,
                    node,
                    crate::list::list5_spec(
                        Part::Text("`"),
                        Part::Int((*n)),
                        Part::Text("` does not fit in `"),
                        Part::Ty((*want)),
                        Part::Text("`"),
                    ),
                );
                (st, Const::Error)
            }
        },
        (ConstValue::Int(_), Ty::ComptimeInt) => (st, Const::Value(Box::new((*want)), value)),
        (ConstValue::Int(n), Ty::Float(_)) => (
            st,
            Const::Value(Box::new((*want)), ConstValue::Float(crate::bigint::int_to_double_spec(n))),
        ),
        (ConstValue::Float(_), Ty::Float(_)) => (st, Const::Value(Box::new((*want)), value)),
        (ConstValue::Bool(_), Ty::Bool) => (st, Const::Value(Box::new((*want)), value)),
        (ConstValue::Char(_), Ty::Char) => (st, Const::Value(Box::new((*want)), value)),
        (_, Ty::Error) => (st, Const::Error),
        _ => {
            let st = crate::unify::report_const_in_spec(
                st,
                env,
                file,
                node,
                crate::list::list4_spec(
                    Part::Text(what),
                    Part::Text(" is a `"),
                    Part::Ty(slot_ty_spec(want)),
                    Part::Text("`, and this is not one"),
                ),
            );
            (st, Const::Error)
        },
    }
}

/// [`Inferer::const_of_def`], as a mathematical function.
pub open spec fn const_of_def_spec(
    st: InfererV,
    env: &InferCx,
    file: FileId,
    node: NodeId,
    named: DefId,
    want: &Ty,
    what: &'static str,
    depth: u32,
    fuel: u64,
) -> (InfererV, Const)
    decreases fuel,
{
    if fuel == 0 {
        (crate::unify::give_up_spec(st), Const::Error)
    } else {
        let def = crate::def::resolve_alias_spec(env.tables, named);
        match crate::def::def_kind_spec(env.tables, def) {
            DefKind::ConstParam => {
                let (st, declared) = const_param_ty_spec(st, env, def, (fuel - 1) as u64);
                let slot = slot_ty_spec(want);
                if !crate::subst::is_error_spec(&declared)
                    && !crate::subst::is_error_spec(&slot)
                    && !crate::ty::ty_eq_spec(&declared, &slot)
                    && !const_ty_widens_spec(env.tables, &declared, &slot) {
                    let st = crate::unify::report_const_in_spec(
                        st,
                        env,
                        file,
                        node,
                        crate::list::append_spec(
                            crate::list::list4_spec(
                                Part::Text("`"),
                                Part::Name(crate::def::def_name_spec(env.tables, def)),
                                Part::Text("` is a `const "),
                                Part::Ty(declared),
                            ),
                            crate::list::list5_spec(
                                Part::Text("`, but "),
                                Part::Text(what),
                                Part::Text(" must be a `"),
                                Part::Ty(slot),
                                Part::Text("`"),
                            ),
                        ),
                    );
                    (st, Const::Error)
                } else {
                    (st, Const::Param(def))
                }
            },
            DefKind::Const => match crate::decls::recorded_const_value_spec(env.tables, def) {
                Some(v) => const_from_value_spec(st, env, file, node, v, want, what),
                None => match const_rhs_of_spec(env.tables, def) {
                    Some((cfile, rhs)) => const_value_in_spec(
                        st,
                        env,
                        cfile,
                        rhs,
                        want,
                        what,
                        crate::unify::succ32_spec(depth),
                        (fuel - 1) as u64,
                    ),
                    None => (st, Const::Error),
                },
            },
            other => {
                let st = crate::unify::report_const_in_spec(
                    st,
                    env,
                    file,
                    node,
                    crate::list::list7_spec(
                        Part::Text("`"),
                        Part::Path(def),
                        Part::Text("` is a "),
                        Part::Text(crate::diag::kind_label_spec(other)),
                        Part::Text(" — "),
                        Part::Text(what),
                        Part::Text(" must be a constant value"),
                    ),
                );
                (st, Const::Error)
            },
        }
    }
}

/// [`const_ty_widens`], as a mathematical function.
pub open spec fn const_ty_widens_spec(t: &Tables, declared: &Ty, want: &Ty) -> bool {
    if is_ptr_sized_spec(t, declared) || is_ptr_sized_spec(t, want) {
        false
    } else {
        match (crate::subst::int_parts_spec(declared), crate::subst::int_parts_spec(want)) {
            (Some(from), Some(to)) => crate::subst::int_widens_spec(from, to),
            _ => false,
        }
    }
}

/// Whether a `const` parameter of one type may fill a slot of another: exactly
/// where a value would widen, and never across the pointer-sized integers.
pub fn const_ty_widens(t: &Tables, declared: &Ty, want: &Ty) -> (r: bool)
    ensures
        r == const_ty_widens_spec(t, declared, want),
{
    if is_ptr_sized(t, declared) || is_ptr_sized(t, want) {
        false
    } else {
        match (int_parts(declared), int_parts(want)) {
            (Some(from), Some(to)) => int_widens(from, to),
            _ => false,
        }
    }
}

/// [`Inferer::const_arg`], as a mathematical function.
pub open spec fn const_arg_spec(
    st: InfererV,
    env: &InferCx,
    param: DefId,
    arg: NodeId,
    fuel: u64,
) -> (InfererV, Const)
    decreases fuel,
{
    if fuel == 0 {
        (crate::unify::give_up_spec(st), Const::Error)
    } else {
        let (st, declared) = const_param_ty_spec(st, env, param, (fuel - 1) as u64);
        let repr = crate::unify::numeric_repr_spec(st, &declared);
        if !crate::subst::is_error_spec(&declared) && !crate::subst::is_primitive_spec(&repr) {
            let st = crate::unify::report_spec(
                st,
                env,
                arg,
                crate::diag::say_ty_spec(
                    "a `const` generic parameter must have a primitive type, not `",
                    declared,
                    "`",
                ),
            );
            (st, Const::Error)
        } else {
            const_value_in_spec(st, env, st.file, arg, &declared, "a `const` argument", 0, (fuel - 1) as u64)
        }
    }
}

/// [`Inferer::check_const_param`], as a mathematical function.
pub open spec fn check_const_param_spec(st: InfererV, env: &InferCx, node: NodeId, fuel: u64) -> InfererV
    decreases fuel,
{
    if fuel == 0 {
        crate::unify::give_up_spec(st)
    } else {
        match crate::def::kind_of_spec(env.tables, st.file, node) {
            Some(NodeKind::GenericConstParam { name, ty }) => {
                let (st, t) = ty_from_node_spec(st, env, *ty, (fuel - 1) as u64);
                let s = crate::unify::shallow_spec(st, &t, DEPTH_LIMIT);
                let repr = crate::unify::numeric_repr_spec(st, &s);
                if !crate::subst::is_primitive_spec(&repr) && !crate::subst::is_error_spec(&s) {
                    let shown = crate::unify::resolve_spec(st, &t, DEPTH_LIMIT);
                    let st = crate::unify::report_spec(
                        st,
                        env,
                        node,
                        crate::list::list5_spec(
                            Part::Text("a `const` generic parameter must have a primitive type, but `"),
                            Part::Name((*name)),
                            Part::Text("` is `"),
                            Part::Ty(shown),
                            Part::Text("`"),
                        ),
                    );
                    st
                } else {
                    st
                }
            },
            _ => {
                st
            },
        }
    }
}

/// [`Inferer::const_param_ty`], as a mathematical function.
pub open spec fn const_param_ty_spec(st: InfererV, env: &InferCx, param: DefId, fuel: u64) -> (InfererV, Ty)
    decreases fuel,
{
    if fuel == 0 {
        (crate::unify::give_up_spec(st), Ty::Error)
    } else {
        match crate::def::def_place_spec(env.tables, param) {
            Some((file, node)) => {
                match crate::def::kind_of_spec(env.tables, file, node) {
                    Some(
                        NodeKind::GenericConstParam { name: _, ty },
                    ) => ty_from_node_in_spec(st, env, file, *ty, (fuel - 1) as u64),
                    _ => (st, Ty::Error),
                }
            },
            _ => {
                (st, Ty::Error)
            },
        }
    }
}

/// [`Inferer::record_generic_arg_in`], as a mathematical function.
pub open spec fn record_generic_arg_in_spec(
    st: InfererV,
    env: &InferCx,
    file: FileId,
    node: NodeId,
    fuel: u64,
) -> InfererV
    decreases fuel,
{
    if fuel == 0 {
        crate::unify::give_up_spec(st)
    } else {
        match crate::def::kind_of_spec(env.tables, file, node) {
            Some(NodeKind::AssocBinding { name, ty }) => {
                let (st, t) = ty_from_node_in_spec(st, env, file, *ty, (fuel - 1) as u64);
                let st = crate::unify::push_assoc_spec(st, ((*name), t));
                st
            },
            _ => {
                st
            },
        }
    }
}

/// [`Inferer::record_generic_args_in`], as a mathematical function.
pub open spec fn record_generic_args_in_spec(
    st: InfererV,
    env: &InferCx,
    file: FileId,
    l: &List<NodeId>,
    fuel: u64,
) -> InfererV
    decreases fuel, l,
{
    if fuel == 0 {
        crate::unify::give_up_spec(st)
    } else {
        match l {
            List::Nil => {
                st
            },
            List::Cons(h, t) => {
                let st = record_generic_arg_in_spec(st, env, file, *h, (fuel - 1) as u64);
                let st = record_generic_args_in_spec(st, env, file, t, fuel);
                st
            },
        }
    }
}

// Parameters and their bounds.

/// [`Inferer::param_ty`], as a mathematical function.
pub open spec fn param_ty_spec(st: InfererV, env: &InferCx, def: DefId, fuel: u64) -> (InfererV, Ty)
    decreases fuel,
{
    if fuel == 0 {
        (crate::unify::give_up_spec(st), Ty::Error)
    } else {
        match crate::decls::recorded_pinned_spec(env.tables, def) {
            Some(t) => {
                (st, t)
            },
            None => {
                match pinned_node_spec(env.tables, def) {
                    Some((file, node)) => ty_from_node_in_spec(st, env, file, node, (fuel - 1) as u64),
                    None => (st, crate::ty::nominal_spec(def)),
                }
            },
        }
    }
}

/// [`pinned_node`], as a mathematical function.
pub open spec fn pinned_node_spec(t: &Tables, def: DefId) -> Option<(FileId, NodeId)> {
    match crate::def::get_def_spec(t, def) {
        Some(d) => match (&d.projection, d.file) {
            (Some(p), Some(file)) => match p.pinned {
                Some(node) => if crate::def::has_ast_spec(t, file) {
                    Some((file, node))
                } else {
                    None
                },
                None => None,
            },
            _ => None,
        },
        None => None,
    }
}

/// Where the type an associated-type parameter is pinned to was written.
pub fn pinned_node(t: &Tables, def: DefId) -> (r: Option<(FileId, NodeId)>)
    ensures
        r == pinned_node_spec(t, def),
{
    match get_def(t, def) {
        Some(d) => match (&d.projection, d.file) {
            (Some(p), Some(file)) => match p.pinned {
                Some(node) => if has_ast(t, file) {
                    Some((file, node))
                } else {
                    None
                },
                None => None,
            },
            _ => None,
        },
        None => None,
    }
}

/// [`Inferer::bound_trait_defs`], as a mathematical function.
pub open spec fn bound_trait_defs_spec(
    st: InfererV,
    env: &InferCx,
    file: FileId,
    l: &List<NodeId>,
) -> List<DefId>
    decreases l,
{
    match l {
        List::Nil => List::Nil,
        List::Cons(h, t) => match crate::decls::resolved_def_in_spec(st, env, file, *h) {
            Some(d) => if crate::def::def_kind_spec(env.tables, d) == DefKind::Trait {
                List::Cons(d, Box::new(bound_trait_defs_spec(st, env, file, t)))
            } else {
                bound_trait_defs_spec(st, env, file, t)
            },
            None => bound_trait_defs_spec(st, env, file, t),
        },
    }
}

/// [`constraint_of`], as a mathematical function.
pub open spec fn constraint_of_spec(t: &Tables, def: DefId) -> Option<(FileId, NodeId)> {
    match crate::def::def_place_spec(t, def) {
        Some((file, node)) => match crate::def::kind_of_spec(t, file, node) {
            Some(NodeKind::GenericTypeParam { name: _, constraint: Some(c) }) => Some((file, *c)),
            _ => None,
        },
        None => None,
    }
}

/// Where a type parameter's constraint was written.
pub fn constraint_of(t: &Tables, def: DefId) -> (r: Option<(FileId, NodeId)>)
    ensures
        r == constraint_of_spec(t, def),
{
    match def_place(t, def) {
        Some((file, node)) => match kind_of(t, file, node) {
            Some(NodeKind::GenericTypeParam { name: _, constraint: Some(c) }) => Some((file, *c)),
            _ => None,
        },
        None => None,
    }
}

/// [`Inferer::param_bound_traits`], as a mathematical function.
pub open spec fn param_bound_traits_spec(st: InfererV, env: &InferCx, def: DefId) -> List<DefId> {
    match crate::def::get_def_spec(env.tables, def) {
        Some(d) => match &d.projection {
            Some(p) => match crate::def::member_of_spec(env.tables, p.trait_def, &p.assoc) {
                Some(adef) => assoc_bounds_of_spec(
                    env.tables,
                    crate::def::resolve_alias_spec(env.tables, adef),
                ),
                None => List::Nil,
            },
            None => match &d.param_bounds {
                Some(l) => (*l),
                None => match constraint_of_spec(env.tables, def) {
                    Some((file, c)) => bound_trait_defs_spec(
                        st,
                        env,
                        file,
                        &crate::decls::bound_nodes_spec(env.tables, file, c),
                    ),
                    None => List::Nil,
                },
            },
        },
        None => List::Nil,
    }
}

/// [`assoc_bounds_of`], as a mathematical function.
pub open spec fn assoc_bounds_of_spec(t: &Tables, def: DefId) -> List<DefId> {
    match crate::def::get_def_spec(t, def) {
        Some(d) => match &d.assoc_bounds {
            Some(l) => (*l),
            None => List::Nil,
        },
        None => List::Nil,
    }
}

/// The traits an associated type was declared with.
pub fn assoc_bounds_of(t: &Tables, def: DefId) -> (r: List<DefId>)
    ensures
        r == assoc_bounds_of_spec(t, def),
{
    match get_def(t, def) {
        Some(d) => match &d.assoc_bounds {
            Some(l) => dup_defs(l),
            None => List::Nil,
        },
        None => List::Nil,
    }
}

/// [`Inferer::param_has_bound`], as a mathematical function.
pub open spec fn param_has_bound_spec(st: InfererV, env: &InferCx, ty: &Ty, trait_def: DefId) -> bool {
    match crate::unify::shallow_spec(st, ty, DEPTH_LIMIT) {
        Ty::Nominal { def, args: _ } => {
            crate::def::def_kind_spec(env.tables, def) == DefKind::TypeParam
                && crate::def::def_in_spec(&param_bound_traits_spec(st, env, def), trait_def)
        },
        _ => false,
    }
}

/// [`Inferer::bound_trait_args_in`], as a mathematical function.
pub open spec fn bound_trait_args_in_spec(
    st: InfererV,
    env: &InferCx,
    file: FileId,
    bound: NodeId,
    fuel: u64,
) -> (InfererV, List<Ty>)
    decreases fuel,
{
    if fuel == 0 {
        (crate::unify::give_up_spec(st), List::Nil)
    } else {
        match crate::def::kind_of_spec(env.tables, file, bound) {
            Some(NodeKind::TypePath { path: _, generic_args }) => {
                tys_from_nodes_spec(
                    st,
                    env,
                    &plain_args_spec(env.tables, file, generic_args),
                    file,
                    (fuel - 1) as u64,
                )
            },
            Some(NodeKind::GenericApply { base: _, args }) => {
                tys_from_nodes_spec(
                    st,
                    env,
                    &plain_args_spec(env.tables, file, args),
                    file,
                    (fuel - 1) as u64,
                )
            },
            _ => (st, List::Nil),
        }
    }
}

/// [`Inferer::find_bound`], as a mathematical function.
pub open spec fn find_bound_spec(
    st: InfererV,
    env: &InferCx,
    file: FileId,
    l: &List<NodeId>,
    trait_def: DefId,
) -> Option<NodeId>
    decreases l,
{
    match l {
        List::Nil => None,
        List::Cons(h, t) => if crate::decls::resolved_def_in_spec(st, env, file, *h) == Some(trait_def) {
            Some(*h)
        } else {
            find_bound_spec(st, env, file, t, trait_def)
        },
    }
}

/// [`Inferer::bound_args`], as a mathematical function.
pub open spec fn bound_args_spec(
    st: InfererV,
    env: &InferCx,
    param: DefId,
    trait_def: DefId,
    fuel: u64,
) -> (InfererV, List<Ty>)
    decreases fuel,
{
    if fuel == 0 {
        (crate::unify::give_up_spec(st), List::Nil)
    } else {
        match crate::decls::recorded_bound_args_spec(env.tables, param, trait_def) {
            Some(l) => {
                (st, l)
            },
            None => {
                if has_projection_spec(env.tables, param) {
                    (st, List::Nil)
                } else {
                    match constraint_of_spec(env.tables, param) {
                        Some((file, c)) => match find_bound_spec(
                            st,
                            env,
                            file,
                            &crate::decls::bound_nodes_spec(env.tables, file, c),
                            trait_def,
                        ) {
                            Some(b) => bound_trait_args_in_spec(st, env, file, b, (fuel - 1) as u64),
                            None => (st, List::Nil),
                        },
                        None => (st, List::Nil),
                    }
                }
            },
        }
    }
}

/// [`has_projection`], as a mathematical function.
pub open spec fn has_projection_spec(t: &Tables, d: DefId) -> bool {
    match crate::def::get_def_spec(t, d) {
        Some(def) => def.projection.is_some(),
        None => false,
    }
}

/// Whether a definition is a parameter an associated type minted.
pub fn has_projection(t: &Tables, d: DefId) -> (r: bool)
    ensures
        r == has_projection_spec(t, d),
{
    match get_def(t, d) {
        Some(def) => def.projection.is_some(),
        None => false,
    }
}

// Signatures and members.

/// [`Inferer::func_def_ty`], as a mathematical function.
pub open spec fn func_def_ty_spec(st: InfererV, env: &InferCx, def: DefId, fuel: u64) -> (InfererV, Ty)
    decreases fuel,
{
    if fuel == 0 {
        (crate::unify::give_up_spec(st), Ty::Error)
    } else {
        match crate::decls::recorded_signature_spec(env.tables, def) {
            Some(sig) => {
                (st, sig)
            },
            None => {
                match crate::def::func_of_spec(env.tables, def) {
                    Some((file, func)) => func_sig_ty_in_spec(st, env, file, func, (fuel - 1) as u64),
                    None => crate::unify::fresh_spec(st),
                }
            },
        }
    }
}

/// [`Inferer::param_tys_from`], as a mathematical function.
pub open spec fn param_tys_from_spec(
    st: InfererV,
    env: &InferCx,
    l: &List<NodeId>,
    file: FileId,
    fuel: u64,
) -> (InfererV, List<Ty>)
    decreases fuel, l,
{
    if fuel == 0 {
        (crate::unify::give_up_spec(st), List::Nil)
    } else {
        match l {
            List::Nil => (st, List::Nil),
            List::Cons(h, t) => {
                let (st, first) = match crate::def::kind_of_spec(env.tables, file, *h) {
                    Some(
                        NodeKind::Param { name: _, ty: Some(n), default: _ },
                    ) => ty_from_node_in_spec(st, env, file, *n, (fuel - 1) as u64),
                    _ => crate::unify::fresh_spec(st),
                };
                let (st, rest) = param_tys_from_spec(st, env, t, file, fuel);
                (st, List::Cons(first, Box::new(rest)))
            },
        }
    }
}

/// [`Inferer::func_sig_ty_in`], as a mathematical function.
pub open spec fn func_sig_ty_in_spec(
    st: InfererV,
    env: &InferCx,
    file: FileId,
    func: NodeId,
    fuel: u64,
) -> (InfererV, Ty)
    decreases fuel,
{
    if fuel == 0 {
        (crate::unify::give_up_spec(st), Ty::Error)
    } else {
        match crate::def::kind_of_spec(env.tables, file, func) {
            Some(NodeKind::FuncExpr { generics: _, params, ret, body: _, abi }) => {
                let (st, ps) = param_tys_from_spec(st, env, params, file, (fuel - 1) as u64);
                let (st, r) = ret_from_node_spec(st, env, file, *ret, (fuel - 1) as u64);
                (st, Ty::Func { params: Box::new(ps), ret: Box::new(r), c: abi.is_some() })
            },
            _ => crate::unify::fresh_spec(st),
        }
    }
}

/// [`Inferer::recorded_param_tys`], as a mathematical function.
pub open spec fn recorded_param_tys_spec(st: InfererV, l: &List<NodeId>) -> (InfererV, List<Ty>)
    decreases l,
{
    match l {
        List::Nil => (st, List::Nil),
        List::Cons(h, t) => {
            let (st, first) = match crate::unify::get_type_spec(st, *h) {
                Some(ty) => (st, ty),
                None => crate::unify::fresh_spec(st),
            };
            let (st, rest) = recorded_param_tys_spec(st, t);
            (st, List::Cons(first, Box::new(rest)))
        },
    }
}

/// [`Inferer::inferred_sig_ty`], as a mathematical function.
pub open spec fn inferred_sig_ty_spec(st: InfererV, env: &InferCx, func: NodeId) -> (InfererV, Ty) {
    match crate::def::kind_of_spec(env.tables, st.file, func) {
        Some(NodeKind::FuncExpr { generics: _, params, ret: _, body: _, abi }) => {
            let (st, ps) = recorded_param_tys_spec(st, params);
            let r = match crate::unify::get_type_spec(st, func) {
                Some(t) => t,
                None => Ty::Void,
            };
            (st, Ty::Func { params: Box::new(ps), ret: Box::new(r), c: abi.is_some() })
        },
        _ => crate::unify::fresh_spec(st),
    }
}

/// [`Inferer::nominal_of`], as a mathematical function.
pub open spec fn nominal_of_spec(st: InfererV, env: &InferCx, def: DefId) -> (InfererV, Ty) {
    let generics = crate::decls::declared_generics_spec(st, env, def);
    let (st, args) = crate::unify::fresh_each_spec(st, &generics);
    (st, Ty::Nominal { def: def, args: Box::new(args) })
}

/// [`Inferer::declared_member_ty`], as a mathematical function.
pub open spec fn declared_member_ty_spec(
    st: InfererV,
    env: &InferCx,
    def: DefId,
    fuel: u64,
) -> (InfererV, Option<Ty>)
    decreases fuel,
{
    if fuel == 0 {
        (crate::unify::give_up_spec(st), None)
    } else {
        match crate::decls::recorded_assoc_const_ty_spec(env.tables, def) {
            Some(t) => {
                (st, Some(t))
            },
            None => {
                match crate::def::def_place_spec(env.tables, def) {
                    Some((file, node)) => {
                        match crate::def::kind_of_spec(env.tables, file, node) {
                            Some(NodeKind::ConstBind { pattern: _, rhs }) => {
                                match crate::def::kind_of_spec(env.tables, file, *rhs) {
                                    Some(NodeKind::AssocConst { ty, default: _ }) => {
                                        let (st, t) = ty_from_node_in_spec(
                                            st,
                                            env,
                                            file,
                                            *ty,
                                            (fuel - 1) as u64,
                                        );
                                        (st, Some(t))
                                    },
                                    _ => (st, None),
                                }
                            },
                            _ => {
                                (st, None)
                            },
                        }
                    },
                    _ => {
                        (st, None)
                    },
                }
            },
        }
    }
}

/// [`Inferer::raw_field_ty`], as a mathematical function.
pub open spec fn raw_field_ty_spec(
    st: InfererV,
    env: &InferCx,
    field: DefId,
    fuel: u64,
) -> (InfererV, Option<Ty>)
    decreases fuel,
{
    if fuel == 0 {
        (crate::unify::give_up_spec(st), None)
    } else {
        match crate::lower::recorded_field_ty_spec(env.tables, field) {
            Some(t) => {
                (st, Some(t))
            },
            None => {
                match crate::def::def_place_spec(env.tables, field) {
                    Some((file, node)) => {
                        match crate::def::kind_of_spec(env.tables, file, node) {
                            Some(NodeKind::Field { name: _, ty }) => {
                                let (st, t) = ty_from_node_in_spec(st, env, file, *ty, (fuel - 1) as u64);
                                (st, Some(t))
                            },
                            _ => {
                                let (st, t) = ty_from_node_in_spec(st, env, file, node, (fuel - 1) as u64);
                                (st, Some(t))
                            },
                        }
                    },
                    _ => {
                        (st, None)
                    },
                }
            },
        }
    }
}

/// [`Inferer::field_ty`], as a mathematical function.
pub open spec fn field_ty_spec(
    st: InfererV,
    env: &InferCx,
    base: &Ty,
    name: &Symbol,
    fuel: u64,
) -> (InfererV, Option<Ty>)
    decreases fuel,
{
    if fuel == 0 {
        (crate::unify::give_up_spec(st), None)
    } else {
        field_ty_at_spec(st, env, None, base, name, (fuel - 1) as u64)
    }
}

/// [`Inferer::field_ty_at`], as a mathematical function.
pub open spec fn field_ty_at_spec(
    st: InfererV,
    env: &InferCx,
    at: Option<NodeId>,
    base: &Ty,
    name: &Symbol,
    fuel: u64,
) -> (InfererV, Option<Ty>)
    decreases fuel,
{
    if fuel == 0 {
        (crate::unify::give_up_spec(st), None)
    } else {
        match crate::unify::autoderef_spec(st, base, DEPTH_LIMIT) {
            Ty::Struct(fields) => match crate::ty::find_named_spec(&fields, name) {
                Some(t) => (st, Some((*t))),
                None => (st, None),
            },
            Ty::Nominal { def, args } => {
                match crate::lower::field_def_spec(env.tables, def, name) {
                    Some(field) => {
                        let st = match at {
                            Some(n) => {
                                let st = check_field_visible_spec(st, env, n, def, field);
                                st
                            },
                            None => {
                                st
                            },
                        };
                        let (st, raw) = raw_field_ty_spec(st, env, field, (fuel - 1) as u64);
                        match raw {
                            Some(t) => (
                                st,
                                Some(
                                    crate::subst::subst_ty_spec(
                                        &t,
                                        &crate::decls::nominal_subst_spec(st, env, def, &args),
                                    ),
                                ),
                            ),
                            None => (st, None),
                        }
                    },
                    _ => {
                        (st, None)
                    },
                }
            },
            _ => (st, None),
        }
    }
}

/// [`Inferer::tuple_payload`], as a mathematical function.
pub open spec fn tuple_payload_spec(
    st: InfererV,
    env: &InferCx,
    file: FileId,
    l: &List<NodeId>,
    fuel: u64,
) -> (InfererV, List<(Option<Symbol>, Ty)>)
    decreases fuel, l,
{
    if fuel == 0 {
        (crate::unify::give_up_spec(st), List::Nil)
    } else {
        match l {
            List::Nil => (st, List::Nil),
            List::Cons(h, t) => {
                let (st, ty) = ty_from_node_in_spec(st, env, file, *h, (fuel - 1) as u64);
                let (st, rest) = tuple_payload_spec(st, env, file, t, fuel);
                (st, List::Cons((None, ty), Box::new(rest)))
            },
        }
    }
}

/// [`Inferer::record_payload`], as a mathematical function.
pub open spec fn record_payload_spec(
    st: InfererV,
    env: &InferCx,
    file: FileId,
    l: &List<NodeId>,
    fuel: u64,
) -> (InfererV, List<(Option<Symbol>, Ty)>)
    decreases fuel, l,
{
    if fuel == 0 {
        (crate::unify::give_up_spec(st), List::Nil)
    } else {
        match l {
            List::Nil => (st, List::Nil),
            List::Cons(h, t) => match crate::def::kind_of_spec(env.tables, file, *h) {
                Some(NodeKind::Field { name, ty }) => {
                    let (st, ty) = ty_from_node_in_spec(st, env, file, *ty, (fuel - 1) as u64);
                    let (st, rest) = record_payload_spec(st, env, file, t, fuel);
                    (st, List::Cons((Some((*name)), ty), Box::new(rest)))
                },
                _ => record_payload_spec(st, env, file, t, fuel),
            },
        }
    }
}

/// [`Inferer::raw_payload`], as a mathematical function.
pub open spec fn raw_payload_spec(
    st: InfererV,
    env: &InferCx,
    variant: DefId,
    fuel: u64,
) -> (InfererV, Option<List<(Option<Symbol>, Ty)>>)
    decreases fuel,
{
    if fuel == 0 {
        (crate::unify::give_up_spec(st), None)
    } else {
        match crate::decls::recorded_payload_spec(env.tables, variant) {
            Some(l) => {
                (st, Some(l))
            },
            None => {
                match crate::def::def_place_spec(env.tables, variant) {
                    Some((file, node)) => {
                        match crate::def::kind_of_spec(env.tables, file, node) {
                            Some(NodeKind::Variant { name: _, payload, value: _ }) => {
                                match payload {
                                    VariantPayload::Unit => (st, Some(List::Nil)),
                                    VariantPayload::Tuple(tys) => {
                                        let (st, l) = tuple_payload_spec(
                                            st,
                                            env,
                                            file,
                                            tys,
                                            (fuel - 1) as u64,
                                        );
                                        (st, Some(l))
                                    },
                                    VariantPayload::Record(fields) => {
                                        let (st, l) = record_payload_spec(
                                            st,
                                            env,
                                            file,
                                            fields,
                                            (fuel - 1) as u64,
                                        );
                                        (st, Some(l))
                                    },
                                }
                            },
                            _ => {
                                (st, None)
                            },
                        }
                    },
                    _ => {
                        (st, None)
                    },
                }
            },
        }
    }
}

/// [`Inferer::variant_payload`], as a mathematical function.
pub open spec fn variant_payload_spec(
    st: InfererV,
    env: &InferCx,
    base: &Ty,
    name: &Symbol,
    fuel: u64,
) -> (InfererV, Option<List<(Option<Symbol>, Ty)>>)
    decreases fuel,
{
    if fuel == 0 {
        (crate::unify::give_up_spec(st), None)
    } else {
        match crate::unify::autoderef_spec(st, base, DEPTH_LIMIT) {
            Ty::Nominal { def, args } => {
                match crate::def::member_of_spec(env.tables, def, name) {
                    Some(variant) => {
                        if crate::def::def_kind_spec(env.tables, variant) != DefKind::Variant {
                            (st, None)
                        } else {
                            let (st, raw) = raw_payload_spec(st, env, variant, (fuel - 1) as u64);
                            match raw {
                                Some(l) => (
                                    st,
                                    Some(
                                        crate::subst::subst_payload_spec(
                                            &l,
                                            &crate::decls::nominal_subst_spec(st, env, def, &args),
                                        ),
                                    ),
                                ),
                                None => (st, None),
                            }
                        }
                    },
                    _ => {
                        (st, None)
                    },
                }
            },
            _ => (st, None),
        }
    }
}

/// [`Inferer::raw_tuple_tys`], as a mathematical function.
pub open spec fn raw_tuple_tys_spec(
    st: InfererV,
    env: &InferCx,
    def: DefId,
    fuel: u64,
) -> (InfererV, Option<List<Ty>>)
    decreases fuel,
{
    if fuel == 0 {
        (crate::unify::give_up_spec(st), None)
    } else {
        match crate::decls::recorded_tuple_tys_spec(env.tables, def) {
            Some(l) => {
                (st, Some(l))
            },
            None => {
                match crate::def::def_place_spec(env.tables, def) {
                    Some((file, node)) => {
                        let rhs = crate::def::bound_rhs_spec(env.tables, file, node);
                        match crate::def::kind_of_spec(env.tables, file, rhs) {
                            Some(NodeKind::StructType { generics: _, kind: StructKind::Tuple(tys) }) => {
                                let (st, l) = tys_from_nodes_spec(st, env, tys, file, (fuel - 1) as u64);
                                (st, Some(l))
                            },
                            _ => (st, None),
                        }
                    },
                    _ => {
                        (st, None)
                    },
                }
            },
        }
    }
}

/// [`Inferer::tuple_struct_tys`], as a mathematical function.
pub open spec fn tuple_struct_tys_spec(
    st: InfererV,
    env: &InferCx,
    base: &Ty,
    fuel: u64,
) -> (InfererV, Option<List<Ty>>)
    decreases fuel,
{
    if fuel == 0 {
        (crate::unify::give_up_spec(st), None)
    } else {
        match crate::unify::autoderef_spec(st, base, DEPTH_LIMIT) {
            Ty::Nominal { def, args } => {
                let (st, raw) = raw_tuple_tys_spec(st, env, def, (fuel - 1) as u64);
                match raw {
                    Some(l) => (
                        st,
                        Some(
                            crate::subst::subst_tys_spec(
                                &l,
                                &crate::decls::nominal_subst_spec(st, env, def, &args),
                            ),
                        ),
                    ),
                    None => (st, None),
                }
            },
            _ => (st, None),
        }
    }
}

/// [`behind`], as a mathematical function.
pub open spec fn behind_spec(ptr: Option<bool>, ty: Ty) -> Ty {
    match ptr {
        Some(mutable) => Ty::Ptr { mutable: mutable, inner: Box::new(ty) },
        None => ty,
    }
}

/// A type behind a pointer, where there is one.
pub fn behind(ptr: Option<bool>, ty: Ty) -> (r: Ty)
    ensures
        r == behind_spec(ptr, ty),
{
    match ptr {
        Some(mutable) => Ty::Ptr { mutable: mutable, inner: Box::new(ty) },
        None => ty,
    }
}

/// [`Inferer::nominal_head`], as a mathematical function.
pub open spec fn nominal_head_spec(st: InfererV, ty: &Ty) -> Option<(DefId, Option<bool>)> {
    match crate::unify::shallow_spec(st, ty, DEPTH_LIMIT) {
        Ty::Nominal { def, args: _ } => Some((def, None)),
        Ty::Ptr { mutable, inner } => match crate::unify::shallow_spec(st, &inner, DEPTH_LIMIT) {
            Ty::Nominal { def, args: _ } => Some((def, Some(mutable))),
            _ => None,
        },
        _ => None,
    }
}

/// [`Inferer::distinct_repr`], as a mathematical function.
pub open spec fn distinct_repr_spec(
    st: InfererV,
    env: &InferCx,
    recv: &Ty,
    fuel: u64,
) -> (InfererV, Option<Ty>)
    decreases fuel,
{
    if fuel == 0 {
        (crate::unify::give_up_spec(st), None)
    } else {
        match nominal_head_spec(st, recv) {
            Some((def, ptr)) => {
                match crate::decls::recorded_distinct_repr_spec(env.tables, def) {
                    Some(t) => {
                        (st, Some(behind_spec(ptr, t)))
                    },
                    None => {
                        match crate::def::def_place_spec(env.tables, def) {
                            Some((file, node)) => {
                                let rhs = crate::def::bound_rhs_spec(env.tables, file, node);
                                match crate::def::kind_of_spec(env.tables, file, rhs) {
                                    Some(NodeKind::DistinctType { inner }) => {
                                        let (st, t) = ty_from_node_in_spec(
                                            st,
                                            env,
                                            file,
                                            *inner,
                                            (fuel - 1) as u64,
                                        );
                                        (st, Some(behind_spec(ptr, t)))
                                    },
                                    _ => (st, None),
                                }
                            },
                            _ => {
                                (st, None)
                            },
                        }
                    },
                }
            },
            _ => {
                (st, None)
            },
        }
    }
}

// Privacy.

/// [`inside`], as a mathematical function.
pub open spec fn inside_spec(t: &Tables, at: Option<DefId>, home: DefId, owner: DefId, fuel: u64) -> bool
    decreases fuel,
{
    if fuel == 0 {
        false
    } else {
        match at {
            Some(d) => d == home
                || d == owner
                || inside_spec(t, crate::def::def_parent_spec(t, d), home, owner, (fuel - 1) as u64),
            None => false,
        }
    }
}

/// Whether walking outwards from a definition reaches one of two others.
pub fn inside(t: &Tables, at: Option<DefId>, home: DefId, owner: DefId, fuel: u64) -> (r: bool)
    ensures
        r == inside_spec(t, at, home, owner, fuel),
    decreases fuel,
{
    if fuel == 0 {
        return false;
    }
    match at {
        Some(d) => d == home || d == owner || inside(t, def_parent(t, d), home, owner, (fuel - 1) as u64),
        None => false,
    }
}

/// [`Inferer::visible_here`], as a mathematical function.
pub open spec fn visible_here_spec(st: InfererV, env: &InferCx, owner: DefId) -> bool {
    match st.ctx {
        Some(ctx) => {
            let home = match crate::def::def_parent_spec(env.tables, owner) {
                Some(p) => p,
                None => owner,
            };
            inside_spec(env.tables, Some(ctx), home, owner, DEPTH_LIMIT)
        },
        None => true,
    }
}

/// [`same_package`], as a mathematical function.
pub open spec fn same_package_spec(a: Option<&Symbol>, b: Option<&Symbol>) -> bool {
    match (a, b) {
        (Some(x), Some(y)) => crate::symbol::sym_eq_spec(x, y),
        (None, None) => true,
        _ => false,
    }
}

/// Whether two packages are the same one.
pub fn same_package(a: Option<&Symbol>, b: Option<&Symbol>) -> (r: bool)
    ensures
        r == same_package_spec(a, b),
{
    match (a, b) {
        (Some(x), Some(y)) => sym_eq(x, y),
        (None, None) => true,
        _ => false,
    }
}

/// [`Inferer::field_reaches_here`], as a mathematical function.
pub open spec fn field_reaches_here_spec(st: InfererV, env: &InferCx, field: DefId) -> bool {
    if !st.packaged {
        true
    } else {
        match crate::def::get_def_spec(env.tables, field) {
            Some(d) => match d.vis {
                Vis::Public => true,
                Vis::Private => false,
                Vis::Package => {
                    let home = match d.file {
                        Some(f) => crate::def::package_of_spec(env.tables, f),
                        None => None,
                    };
                    same_package_spec(home, crate::def::package_of_spec(env.tables, st.file))
                },
            },
            None => false,
        }
    }
}

/// [`Inferer::check_field_visible`], as a mathematical function.
pub open spec fn check_field_visible_spec(
    st: InfererV,
    env: &InferCx,
    at: NodeId,
    owner: DefId,
    field: DefId,
) -> InfererV {
    if !field_reaches_here_spec(st, env, field) && !visible_here_spec(st, env, owner) {
        let t = crate::def::def_name_spec(env.tables, owner);
        let st = crate::unify::report_with_note_spec(
            st,
            env,
            at,
            crate::list::list5_spec(
                Part::Text("the field `"),
                Part::Name(crate::def::def_name_spec(env.tables, field)),
                Part::Text("` of `"),
                Part::Name(t),
                Part::Text("` is private"),
            ),
            crate::diag::say_name_spec(
                "a field is private unless `",
                &t,
                "` says otherwise — `@public(all)`, `@public(fields: package)` — or the field itself is `@public` / `@public(package)`",
            ),
        );
        st
    } else {
        st
    }
}

impl Inferer {
    /// The type a node of the file being inferred names.
    pub fn ty_from_node(&mut self, env: &InferCx, node: NodeId, fuel: u64) -> (r: Ty)
        ensures
            (final(self)@, r) == ty_from_node_spec(old(self)@, env, node, fuel),
            crate::keeping::kept(old(self)@, final(self)@),
        decreases fuel,
    {
        if fuel == 0 {
            self.give_up();
            return Ty::Error;
        }
        self.ty_from_node_in(env, self.file, node, (fuel - 1) as u64)
    }

    /// The type each node of a list denotes.
    pub fn tys_from_nodes(
        &mut self,
        env: &InferCx,
        l: &List<NodeId>,
        file: FileId,
        fuel: u64,
    ) -> (r: List<Ty>)
        ensures
            (final(self)@, r) == tys_from_nodes_spec(old(self)@, env, l, file, fuel),
            crate::keeping::kept(old(self)@, final(self)@),
        decreases fuel, l,
    {
        if fuel == 0 {
            self.give_up();
            return List::Nil;
        }
        match l {
            List::Nil => List::Nil,
            List::Cons(h, t) => {
                let a = self.ty_from_node_in(env, file, *h, (fuel - 1) as u64);
                let rest = self.tys_from_nodes(env, t, file, fuel);
                List::Cons(a, Box::new(rest))
            },
        }
    }

    /// The type a node that may be absent names, `void` where it is.
    pub fn ret_from_node(&mut self, env: &InferCx, file: FileId, node: Option<NodeId>, fuel: u64) -> (r: Ty)
        ensures
            (final(self)@, r) == ret_from_node_spec(old(self)@, env, file, node, fuel),
            crate::keeping::kept(old(self)@, final(self)@),
        decreases fuel,
    {
        if fuel == 0 {
            self.give_up();
            return Ty::Error;
        }
        match node {
            Some(n) => self.ty_from_node_in(env, file, n, (fuel - 1) as u64),
            None => Ty::Void,
        }
    }

    /// The type a node names.
    #[verifier::rlimit(60)]
    pub fn ty_from_node_in(&mut self, env: &InferCx, file: FileId, node: NodeId, fuel: u64) -> (r: Ty)
        ensures
            (final(self)@, r) == ty_from_node_in_spec(old(self)@, env, file, node, fuel),
            crate::keeping::kept(old(self)@, final(self)@),
        decreases fuel,
    {
        if fuel == 0 {
            self.give_up();
            return Ty::Error;
        }
        match kind_of(env.tables, file, node) {
            Some(NodeKind::TypeHole) => self.fresh(),
            Some(NodeKind::ImplType { .. }) => {
                self.report_in(
                    env,
                    file,
                    node,
                    say("`impl` is written as a parameter's type or as the return type (§5.4)"),
                );
                Ty::Error
            },
            Some(NodeKind::GenericTypeParam { .. }) => match self.get_def_meta(file, node) {
                Some(def) => {
                    let args = match self.get_opaque_args(file, node) {
                        Some(l) => nominals(&l),
                        None => List::Nil,
                    };
                    Ty::Nominal { def: def, args: Box::new(args) }
                },
                None => Ty::Error,
            },
            Some(NodeKind::PtrType { mutable, inner }) => if is_func_type(kind_of(env.tables, file, *inner)) {
                self.ty_from_node_in(env, file, *inner, (fuel - 1) as u64)
            } else {
                let t = self.ty_from_node_in(env, file, *inner, (fuel - 1) as u64);
                Ty::Ptr { mutable: *mutable, inner: Box::new(t) }
            },
            Some(NodeKind::SliceType { mutable, inner }) => {
                let t = self.ty_from_node_in(env, file, *inner, (fuel - 1) as u64);
                Ty::Slice { mutable: *mutable, inner: Box::new(t) }
            },
            Some(NodeKind::ArrayType { len, mutable, inner }) => {
                let k = self.const_len_in(env, file, *len, (fuel - 1) as u64);
                let t = self.ty_from_node_in(env, file, *inner, (fuel - 1) as u64);
                Ty::Array { len: k, mutable: *mutable, inner: Box::new(t) }
            },
            Some(NodeKind::TupleType { elems }) => self.tuple_from_nodes(env, file, elems, (fuel - 1) as u64),
            Some(NodeKind::FuncType { params, ret, abi }) => {
                let ps = self.tys_from_nodes(env, params, file, (fuel - 1) as u64);
                let r = self.ret_from_node(env, file, *ret, (fuel - 1) as u64);
                Ty::Func { params: Box::new(ps), ret: Box::new(r), c: abi.is_some() }
            },
            Some(NodeKind::DynType { inner }) => match self.resolved_def_in(env, file, *inner) {
                Some(def) => match kind_of(env.tables, file, *inner) {
                    Some(NodeKind::TypePath { path: _, generic_args }) => {
                        let pins = self.dyn_pins(env, file, generic_args, (fuel - 1) as u64);
                        Ty::Dyn { def: def, assoc: Box::new(sort_named(pins)) }
                    },
                    _ => Ty::Dyn { def: def, assoc: Box::new(List::Nil) },
                },
                None => Ty::Error,
            },
            Some(NodeKind::StructType { generics, kind }) => self.anon_struct_ty(
                env,
                file,
                node,
                generics,
                kind,
                (fuel - 1) as u64,
            ),
            Some(NodeKind::DistinctType { inner }) => self.ty_from_node_in(
                env,
                file,
                *inner,
                (fuel - 1) as u64,
            ),
            Some(NodeKind::TypePath { path: _, generic_args }) => self.typepath_ty(
                env,
                file,
                node,
                generic_args,
                (fuel - 1) as u64,
            ),
            Some(NodeKind::GenericApply { base, args }) => self.typepath_ty(
                env,
                file,
                *base,
                args,
                (fuel - 1) as u64,
            ),
            Some(NodeKind::Path { .. }) => self.typepath_ty(env, file, node, &List::Nil, (fuel - 1) as u64),
            Some(NodeKind::FieldAccess { .. }) => self.typepath_ty(
                env,
                file,
                node,
                &List::Nil,
                (fuel - 1) as u64,
            ),
            Some(NodeKind::Tuple { elems }) => self.tuple_from_nodes(env, file, elems, (fuel - 1) as u64),
            _ => Ty::Error,
        }
    }

    /// The tuple of the types some nodes name, `void` for none.
    pub fn tuple_from_nodes(
        &mut self,
        env: &InferCx,
        file: FileId,
        elems: &List<NodeId>,
        fuel: u64,
    ) -> (r: Ty)
        ensures
            (final(self)@, r) == tuple_from_nodes_spec(old(self)@, env, file, elems, fuel),
            crate::keeping::kept(old(self)@, final(self)@),
        decreases fuel,
    {
        if fuel == 0 {
            self.give_up();
            return Ty::Error;
        }
        if is_empty(elems) {
            Ty::Void
        } else {
            let ts = self.tys_from_nodes(env, elems, file, (fuel - 1) as u64);
            Ty::Tuple(Box::new(ts))
        }
    }

    /// The associated types a trait object pins. It takes no other arguments.
    pub fn dyn_pins(
        &mut self,
        env: &InferCx,
        file: FileId,
        l: &List<NodeId>,
        fuel: u64,
    ) -> (r: List<(Symbol, Ty)>)
        ensures
            (final(self)@, r) == dyn_pins_spec(old(self)@, env, file, l, fuel),
            crate::keeping::kept(old(self)@, final(self)@),
        decreases fuel, l,
    {
        if fuel == 0 {
            self.give_up();
            return List::Nil;
        }
        match l {
            List::Nil => List::Nil,
            List::Cons(a, rest) => match kind_of(env.tables, file, *a) {
                Some(NodeKind::AssocBinding { name, ty }) => {
                    let t = self.ty_from_node_in(env, file, *ty, (fuel - 1) as u64);
                    let more = self.dyn_pins(env, file, rest, fuel);
                    List::Cons((dup_sym(name), t), Box::new(more))
                },
                _ => {
                    self.report_in(
                        env,
                        file,
                        *a,
                        say(
                            "a trait object pins associated types (`dyn T.<Item = i32>`) and takes no other arguments",
                        ),
                    );
                    self.dyn_pins(env, file, rest, fuel)
                },
            },
        }
    }

    /// The fields of an inline struct, or `None` once one is given twice.
    pub fn anon_fields(
        &mut self,
        env: &InferCx,
        file: FileId,
        l: &List<NodeId>,
        seen: List<(Symbol, Ty)>,
        fuel: u64,
    ) -> (r: Option<List<(Symbol, Ty)>>)
        ensures
            (final(self)@, r) == anon_fields_spec(old(self)@, env, file, l, seen, fuel),
            crate::keeping::kept(old(self)@, final(self)@),
        decreases fuel, l,
    {
        if fuel == 0 {
            self.give_up();
            return None;
        }
        match l {
            List::Nil => Some(seen),
            List::Cons(m, rest) => match kind_of(env.tables, file, *m) {
                Some(NodeKind::Field { name, ty }) => if find_named(&seen, name).is_some() {
                    self.report_in(env, file, *m, say_name("duplicate field `", name, "`"));
                    None
                } else {
                    let t = self.ty_from_node_in(env, file, *ty, (fuel - 1) as u64);
                    self.anon_fields(env, file, rest, append(seen, single((dup_sym(name), t))), fuel)
                },
                _ => self.anon_fields(env, file, rest, seen, fuel),
            },
        }
    }

    /// The type of an inline struct. It has no name to be generic over, and its
    /// fields are named.
    pub fn anon_struct_ty(
        &mut self,
        env: &InferCx,
        file: FileId,
        node: NodeId,
        generics: &List<NodeId>,
        kind: &StructKind,
        fuel: u64,
    ) -> (r: Ty)
        ensures
            (final(self)@, r) == anon_struct_ty_spec(old(self)@, env, file, node, generics, kind, fuel),
            crate::keeping::kept(old(self)@, final(self)@),
        decreases fuel,
    {
        if fuel == 0 {
            self.give_up();
            return Ty::Error;
        }
        match generics {
            List::Cons(g, _) => {
                self.report_in(
                    env,
                    file,
                    *g,
                    say("an anonymous `struct` cannot be generic: only a declared type takes parameters"),
                );
                Ty::Error
            },
            List::Nil => match kind {
                StructKind::Record(ids) => {
                    let fields = self.anon_fields(env, file, ids, List::Nil, (fuel - 1) as u64);
                    match fields {
                        Some(fs) => Ty::Struct(Box::new(sort_named(fs))),
                        None => Ty::Error,
                    }
                },
                StructKind::Unit => Ty::Struct(Box::new(List::Nil)),
                StructKind::Tuple(_) => {
                    self.report_in(
                        env,
                        file,
                        node,
                        say(
                            "an anonymous `struct` has named fields: write the tuple type `(A, B)`                      for a positional one",
                        ),
                    );
                    Ty::Error
                },
            },
        }
    }

    /// One member of an integer family. Its width is read like any compile-time
    /// argument, and a known one is normalized so that it is the same type however
    /// it was written.
    pub fn int_family_ty(
        &mut self,
        env: &InferCx,
        file: FileId,
        node: NodeId,
        signed: bool,
        generic_args: &List<NodeId>,
        fuel: u64,
    ) -> (r: Ty)
        ensures
            (final(self)@, r) == int_family_ty_spec(old(self)@, env, file, node, signed, generic_args, fuel),
            crate::keeping::kept(old(self)@, final(self)@),
        decreases fuel,
    {
        if fuel == 0 {
            self.give_up();
            return Ty::Error;
        }
        let family: &'static str = if signed {
            "int"
        } else {
            "uint"
        };
        match only_node(generic_args) {
            Some(arg) => {
                let read = self.const_value_in(
                    env,
                    file,
                    arg,
                    &Ty::ComptimeInt,
                    "an integer width",
                    0,
                    (fuel - 1) as u64,
                );
                match read {
                    Const::Value(_, ConstValue::Int(n)) => match int_to_width(&n) {
                        Some(w) => if w == 1 && !signed {
                            Ty::Bool
                        } else if w == 1 {
                            self.report_in(env, file, arg, say("a 1-bit signed integer is not a type"));
                            Ty::Error
                        } else {
                            Ty::Int { signed: signed, width: Const::Width(w) }
                        },
                        None => {
                            self.report_in(
                                env,
                                file,
                                arg,
                                list3(
                                    Part::Text("an integer width must be between 1 and 65535, not `"),
                                    Part::Int(n),
                                    Part::Text("`"),
                                ),
                            );
                            Ty::Error
                        },
                    },
                    other => Ty::Int { signed: signed, width: other },
                }
            },
            _ => {
                self.report_in(
                    env,
                    file,
                    node,
                    list5(
                        Part::Text("`"),
                        Part::Text(family),
                        Part::Text("` is a family of integer types and needs its width: write `"),
                        Part::Text(family),
                        Part::Text(".<N>`"),
                    ),
                );
                Ty::Error
            },
        }
    }

    /// The type a path names, by the definition its head resolved to.
    pub fn typepath_ty(
        &mut self,
        env: &InferCx,
        file: FileId,
        node: NodeId,
        generic_args: &List<NodeId>,
        fuel: u64,
    ) -> (r: Ty)
        ensures
            (final(self)@, r) == typepath_ty_spec(old(self)@, env, file, node, generic_args, fuel),
            crate::keeping::kept(old(self)@, final(self)@),
        decreases fuel,
    {
        if fuel == 0 {
            self.give_up();
            return Ty::Error;
        }
        match self.resolved_def_in(env, file, node) {
            Some(def) => {
                let kind = def_kind(env.tables, def);
                match kind {
                    DefKind::Primitive => {
                        let name = def_name(env.tables, def);
                        if sym_is(&name, "int") {
                            self.int_family_ty(env, file, node, true, generic_args, (fuel - 1) as u64)
                        } else if sym_is(&name, "uint") {
                            self.int_family_ty(env, file, node, false, generic_args, (fuel - 1) as u64)
                        } else {
                            match primitive_ty(&name) {
                                Some(t) => t,
                                None => Ty::Error,
                            }
                        }
                    },
                    DefKind::Struct => self.applied_ty(env, file, def, generic_args, (fuel - 1) as u64),
                    DefKind::Enum => self.applied_ty(env, file, def, generic_args, (fuel - 1) as u64),
                    DefKind::Trait => self.applied_ty(env, file, def, generic_args, (fuel - 1) as u64),
                    DefKind::TypeAlias => match self.self_assoc_ty(env, file, node, def) {
                        Some(t) => t,
                        None => self.expand_alias(env, def, (fuel - 1) as u64),
                    },
                    DefKind::Const => {
                        let t = self.const_alias_ty(env, def, (fuel - 1) as u64);
                        match t {
                            Some(t) => t,
                            None => Ty::Error,
                        }
                    },
                    DefKind::TypeParam => self.param_ty(env, def, (fuel - 1) as u64),
                    DefKind::ConstParam => {
                        self.report_in(
                            env,
                            file,
                            node,
                            say_name(
                                "`",
                                &def_name(env.tables, def),
                                "` is a `const` generic parameter — a value, not a type",
                            ),
                        );
                        Ty::Error
                    },
                    DefKind::External => Ty::Error,
                    _ => {
                        if has_ast(env.tables, file) && self.get_ty_path_reported(file, node).is_none() {
                            self.set_ty_path_reported(file, node, TyPathReported);
                            let name = written_path_in(env.tables, file, node, def, DEPTH_LIMIT);
                            let msg = list5(
                                Part::Text("`"),
                                Part::Name(dup_sym(&name)),
                                Part::Text("` is a "),
                                Part::Text(kind_label(kind)),
                                Part::Text(", not a type"),
                            );
                            if kind == DefKind::Namespace && !has_dot(&name.text) {
                                self.report_with_note_in(
                                    env,
                                    file,
                                    node,
                                    msg,
                                    say_name(
                                        "a binding of `",
                                        &name,
                                        "` shadows any type of that name — bind the import under another name to write both",
                                    ),
                                );
                            } else {
                                self.report_in(env, file, node, msg);
                            }
                        }
                        Ty::Error
                    },
                }
            },
            _ => {
                Ty::Error
            },
        }
    }

    /// A declared type applied to arguments. Missing ones are left to inference.
    pub fn applied_ty(
        &mut self,
        env: &InferCx,
        file: FileId,
        def: DefId,
        generic_args: &List<NodeId>,
        fuel: u64,
    ) -> (r: Ty)
        ensures
            (final(self)@, r) == applied_ty_spec(old(self)@, env, file, def, generic_args, fuel),
            crate::keeping::kept(old(self)@, final(self)@),
        decreases fuel,
    {
        if fuel == 0 {
            self.give_up();
            return Ty::Error;
        }
        let args = self.tys_from_nodes(
            env,
            &plain_args(env.tables, file, generic_args),
            file,
            (fuel - 1) as u64,
        );
        self.record_generic_args_in(env, file, generic_args, (fuel - 1) as u64);
        let declared = self.declared_generics(env, def);
        let rest = self.fresh_n(missing_count(&args, &declared));
        Ty::Nominal { def: def, args: Box::new(append(args, rest)) }
    }

    /// Expand a binding whose right-hand side parses as an expression and names a
    /// type. `None` when it does not name one.
    pub fn const_alias_ty(&mut self, env: &InferCx, def: DefId, fuel: u64) -> (r: Option<Ty>)
        ensures
            (final(self)@, r) == const_alias_ty_spec(old(self)@, env, def, fuel),
            crate::keeping::kept(old(self)@, final(self)@),
        decreases fuel,
    {
        if fuel == 0 {
            self.give_up();
            return None;
        }
        proof {
            reveal(crate::keeping::kept);
        }
        if has_decl(env.tables, def) {
            return recorded_expansion(env.tables, def);
        }
        if def_in(&self.alias_stack, def) {
            return None;
        }
        match def_place(env.tables, def) {
            Some((file, node)) => {
                match kind_of(env.tables, file, node) {
                    Some(NodeKind::ConstBind { pattern: _, rhs }) => {
                        match kind_of(env.tables, file, *rhs) {
                            Some(NodeKind::Tuple { elems }) => if is_empty(elems)
                                || !self.all_name_types(env, file, elems, DEPTH_LIMIT) {
                                None
                            } else {
                                self.push_alias(def);
                                let ty = self.ty_from_node_in(env, file, *rhs, (fuel - 1) as u64);
                                self.pop_alias();
                                Some(ty)
                            },
                            Some(NodeKind::GenericApply { base, args }) => self.alias_of_head(
                                env,
                                file,
                                def,
                                *base,
                                args,
                                (fuel - 1) as u64,
                            ),
                            Some(NodeKind::Path { .. }) => self.alias_of_head(
                                env,
                                file,
                                def,
                                *rhs,
                                &List::Nil,
                                (fuel - 1) as u64,
                            ),
                            Some(NodeKind::FieldAccess { .. }) => self.alias_of_head(
                                env,
                                file,
                                def,
                                *rhs,
                                &List::Nil,
                                (fuel - 1) as u64,
                            ),
                            _ => None,
                        }
                    },
                    _ => {
                        None
                    },
                }
            },
            _ => {
                None
            },
        }
    }

    /// The type an alias's head names, applied to its arguments.
    pub fn alias_of_head(
        &mut self,
        env: &InferCx,
        file: FileId,
        def: DefId,
        head: NodeId,
        args: &List<NodeId>,
        fuel: u64,
    ) -> (r: Option<Ty>)
        ensures
            (final(self)@, r) == alias_of_head_spec(old(self)@, env, file, def, head, args, fuel),
            crate::keeping::kept(old(self)@, final(self)@),
        decreases fuel,
    {
        if fuel == 0 {
            self.give_up();
            return None;
        }
        proof {
            reveal(crate::keeping::kept);
        }
        match self.resolved_def_in(env, file, head) {
            Some(head_def) => if heads_alias(def_kind(env.tables, head_def)) {
                self.push_alias(def);
                let ty = self.typepath_ty(env, file, head, args, (fuel - 1) as u64);
                self.pop_alias();
                Some(ty)
            } else {
                None
            },
            None => None,
        }
    }

    /// Whether a node, read as an expression, names a type.
    pub fn names_type_in(&self, env: &InferCx, file: FileId, node: NodeId, fuel: u64) -> (r: bool)
        ensures
            r == names_type_in_spec(self@, env, file, node, fuel),
        decreases fuel,
    {
        if fuel == 0 {
            return false;
        }
        match kind_of(env.tables, file, node) {
            Some(NodeKind::GenericApply { base, args: _ }) => self.head_names_type(env, file, *base),
            Some(NodeKind::Path { .. }) => self.head_names_type(env, file, node),
            Some(NodeKind::FieldAccess { .. }) => self.head_names_type(env, file, node),
            Some(NodeKind::Tuple { elems }) => !is_empty(elems)
                && self.all_name_types(env, file, elems, (fuel - 1) as u64),
            _ => false,
        }
    }

    /// Whether a name resolved to a type.
    pub fn head_names_type(&self, env: &InferCx, file: FileId, node: NodeId) -> (r: bool)
        ensures
            r == head_names_type_spec(self@, env, file, node),
    {
        match self.resolved_def_in(env, file, node) {
            Some(d) => names_type_kind(def_kind(env.tables, resolve_alias(env.tables, d))),
            None => false,
        }
    }

    /// Whether every node of a list names a type.
    pub fn all_name_types(&self, env: &InferCx, file: FileId, l: &List<NodeId>, fuel: u64) -> (r: bool)
        ensures
            r == all_name_types_spec(self@, env, file, l, fuel),
        decreases fuel, l,
    {
        if fuel == 0 {
            return false;
        }
        match l {
            List::Nil => true,
            List::Cons(h, t) => self.names_type_in(env, file, *h, (fuel - 1) as u64)
                && self.all_name_types(env, file, t, fuel),
        }
    }

    /// Expand a type alias, or an impl's binding of an associated type. A `distinct`
    /// type does not expand, an abstract associated type becomes a variable for the
    /// context to settle, and a cycle stands for the alias itself.
    pub fn expand_alias(&mut self, env: &InferCx, def: DefId, fuel: u64) -> (r: Ty)
        ensures
            (final(self)@, r) == expand_alias_spec(old(self)@, env, def, fuel),
            crate::keeping::kept(old(self)@, final(self)@),
        decreases fuel,
    {
        if fuel == 0 {
            self.give_up();
            return Ty::Error;
        }
        proof {
            reveal(crate::keeping::kept);
        }
        if has_decl(env.tables, def) {
            return match recorded_expansion(env.tables, def) {
                Some(t) => t,
                None => nominal(def),
            };
        }
        if def_in(&self.alias_stack, def) {
            return nominal(def);
        }
        match def_place(env.tables, def) {
            Some((file, node)) => {
                let rhs = bound_rhs(env.tables, file, node);
                match kind_of(env.tables, file, rhs) {
                    Some(NodeKind::DistinctType { .. }) => nominal(def),
                    Some(NodeKind::AssocType { .. }) => self.fresh(),
                    _ => {
                        self.push_alias(def);
                        let ty = self.ty_from_node_in(env, file, rhs, (fuel - 1) as u64);
                        self.pop_alias();
                        ty
                    },
                }
            },
            _ => {
                nominal(def)
            },
        }
    }

    /// The length of an array type.
    pub fn const_len_in(&mut self, env: &InferCx, file: FileId, node: NodeId, fuel: u64) -> (r: Const)
        ensures
            (final(self)@, r) == const_len_in_spec(old(self)@, env, file, node, fuel),
            crate::keeping::kept(old(self)@, final(self)@),
        decreases fuel,
    {
        if fuel == 0 {
            self.give_up();
            return Const::Error;
        }
        let want = self.usize_ty();
        self.const_value_in(env, file, node, &want, "an array length", 0, (fuel - 1) as u64)
    }

    /// Read a compile-time value written in a type, at the type its slot has: a
    /// literal, a `const` parameter, a named constant, the hole a composite literal
    /// fills in, or an expression of those.
    pub fn const_value_in(
        &mut self,
        env: &InferCx,
        file: FileId,
        node: NodeId,
        want: &Ty,
        what: &'static str,
        depth: u32,
        fuel: u64,
    ) -> (r: Const)
        ensures
            (final(self)@, r) == const_value_in_spec(old(self)@, env, file, node, want, what, depth, fuel),
            crate::keeping::kept(old(self)@, final(self)@),
        decreases fuel,
    {
        if fuel == 0 {
            self.give_up();
            return Const::Error;
        }
        if depth > 8 {
            self.report_const_in(
                env,
                file,
                node,
                list2(Part::Text(what), Part::Text(" may not refer to itself")),
            );
            return Const::Error;
        }
        match kind_of(env.tables, file, node) {
            Some(NodeKind::Lit(lit)) => self.const_from_value(env, file, node, lit_value(lit), want, what),
            Some(NodeKind::TypeHole) => self.fresh_const(),
            Some(NodeKind::AssocConst { ty: _, default: Some(v) }) => {
                self.const_value_in(env, file, *v, want, what, succ32(depth), (fuel - 1) as u64)
            },
            Some(NodeKind::Path { .. }) => self.const_of_name(
                env,
                file,
                node,
                want,
                what,
                depth,
                (fuel - 1) as u64,
            ),
            Some(NodeKind::TypePath { .. }) => self.const_of_name(
                env,
                file,
                node,
                want,
                what,
                depth,
                (fuel - 1) as u64,
            ),
            Some(NodeKind::FieldAccess { .. }) => if self.resolved_def_in(env, file, node).is_some() {
                self.const_of_name(env, file, node, want, what, depth, (fuel - 1) as u64)
            } else {
                self.const_of_expr(env, file, node, want, what, depth, (fuel - 1) as u64)
            },
            _ => self.const_of_expr(env, file, node, want, what, depth, (fuel - 1) as u64),
        }
    }

    /// Read a name standing in a compile-time slot.
    pub fn const_of_name(
        &mut self,
        env: &InferCx,
        file: FileId,
        node: NodeId,
        want: &Ty,
        what: &'static str,
        depth: u32,
        fuel: u64,
    ) -> (r: Const)
        ensures
            (final(self)@, r) == const_of_name_spec(old(self)@, env, file, node, want, what, depth, fuel),
            crate::keeping::kept(old(self)@, final(self)@),
        decreases fuel,
    {
        if fuel == 0 {
            self.give_up();
            return Const::Error;
        }
        match self.resolved_def_in(env, file, node) {
            Some(def) => self.const_of_def(env, file, node, def, want, what, depth, (fuel - 1) as u64),
            None => Const::Error,
        }
    }

    /// Fold an expression standing in a compile-time slot.
    pub fn const_of_expr(
        &mut self,
        env: &InferCx,
        file: FileId,
        node: NodeId,
        want: &Ty,
        what: &'static str,
        depth: u32,
        fuel: u64,
    ) -> (r: Const)
        ensures
            (final(self)@, r) == const_of_expr_spec(old(self)@, env, file, node, want, what, depth, fuel),
            crate::keeping::kept(old(self)@, final(self)@),
        decreases fuel,
    {
        if fuel == 0 {
            self.give_up();
            return Const::Error;
        }
        let v = self.const_operand(env, file, node, what, depth, (fuel - 1) as u64);
        match v {
            Some(v) => self.const_from_value(env, file, node, v, want, what),
            None => Const::Error,
        }
    }

    /// The value of one operand of a folded expression, at no type in particular:
    /// only the finished value is read at its slot's. `None` once a complaint was
    /// made.
    pub fn const_operand(
        &mut self,
        env: &InferCx,
        file: FileId,
        node: NodeId,
        what: &'static str,
        depth: u32,
        fuel: u64,
    ) -> (r: Option<ConstValue>)
        ensures
            (final(self)@, r) == const_operand_spec(old(self)@, env, file, node, what, depth, fuel),
            only_marked(old(self)@, final(self)@),
            quiet_keeps_marks(old(self)@, final(self)@),
            depth <= 33 && fuel + 4 * depth > 150 && r is None ==> spoken(old(self)@, final(self)@),
            crate::keeping::kept(old(self)@, final(self)@),
        decreases fuel,
    {
        if fuel == 0 {
            self.give_up();
            return None;
        }
        proof {
            reveal(crate::keeping::kept);
        }
        if depth > 32 {
            self.report_const_in(
                env,
                file,
                node,
                list2(Part::Text(what), Part::Text(" may not refer to itself")),
            );
            return None;
        }
        match kind_of(env.tables, file, node) {
            Some(NodeKind::Lit(lit)) => Some(lit_value(lit)),
            Some(NodeKind::AssocConst { ty: _, default: Some(v) }) => {
                self.const_operand(env, file, *v, what, succ32(depth), (fuel - 1) as u64)
            },
            Some(NodeKind::Unary { op, operand }) => {
                let v = self.const_operand(env, file, *operand, what, succ32(depth), (fuel - 1) as u64);
                match v {
                    Some(v) => self.folded(env, file, node, unary_op(*op, &v)),
                    None => None,
                }
            },
            Some(NodeKind::Binary { op, lhs, rhs }) => self.const_binary(
                env,
                file,
                node,
                *op,
                *lhs,
                *rhs,
                what,
                depth,
                (fuel - 1) as u64,
            ),
            Some(NodeKind::Path { .. }) => self.const_name_operand(
                env,
                file,
                node,
                what,
                depth,
                (fuel - 1) as u64,
            ),
            Some(NodeKind::TypePath { .. }) => self.const_name_operand(
                env,
                file,
                node,
                what,
                depth,
                (fuel - 1) as u64,
            ),
            Some(NodeKind::FieldAccess { .. }) => self.const_name_operand(
                env,
                file,
                node,
                what,
                depth,
                (fuel - 1) as u64,
            ),
            Some(NodeKind::Call { .. }) => {
                self.report_const_in(
                    env,
                    file,
                    node,
                    list3(
                        Part::Text("a call cannot be evaluated inside "),
                        Part::Text(what),
                        Part::Text(
                            ": a function's body is not compiled until after the types are known, and this is one of them",
                        ),
                    ),
                );
                None
            },
            _ => {
                self.not_constant(env, file, node, what);
                None
            },
        }
    }

    /// Complain that a slot holds nothing that can be folded.
    pub fn not_constant(&mut self, env: &InferCx, file: FileId, node: NodeId, what: &'static str)
        ensures
            final(self)@ == not_constant_spec(old(self)@, env, file, node, what),
            crate::keeping::kept(old(self)@, final(self)@),
    {
        self.report_const_in(
            env,
            file,
            node,
            list2(
                Part::Text(what),
                Part::Text(
                    " must be a literal, a constant, a `const` generic parameter, or an expression built from those",
                ),
            ),
        );
    }

    /// What folding gave, with a failure reported.
    pub fn folded(&mut self, env: &InferCx, file: FileId, node: NodeId, f: Folded) -> (r: Option<ConstValue>)
        ensures
            (final(self)@, r) == folded_spec(old(self)@, env, file, node, f),
            crate::keeping::kept(old(self)@, final(self)@),
    {
        match f {
            Folded::Value(v) => Some(v),
            Folded::Fail(msg) => {
                self.report_const_in(env, file, node, msg);
                None
            },
        }
    }

    /// A binary operator in a folded expression. `&&` and `||` look at their right
    /// operand only where the left one leaves it open.
    pub fn const_binary(
        &mut self,
        env: &InferCx,
        file: FileId,
        node: NodeId,
        op: BinOp,
        lhs: NodeId,
        rhs: NodeId,
        what: &'static str,
        depth: u32,
        fuel: u64,
    ) -> (r: Option<ConstValue>)
        ensures
            (final(self)@, r) == const_binary_spec(
                old(self)@,
                env,
                file,
                node,
                op,
                lhs,
                rhs,
                what,
                depth,
                fuel,
            ),
            only_marked(old(self)@, final(self)@),
            quiet_keeps_marks(old(self)@, final(self)@),
            depth <= 32 && fuel + 4 * depth > 149 && r is None ==> spoken(old(self)@, final(self)@),
            crate::keeping::kept(old(self)@, final(self)@),
        decreases fuel,
    {
        if fuel == 0 {
            self.give_up();
            return None;
        }
        proof {
            reveal(crate::keeping::kept);
        }
        if op == BinOp::And || op == BinOp::Or {
            let a = self.const_truth(env, file, lhs, what, succ32(depth), (fuel - 1) as u64);
            return match a {
                Some(a) => if (op == BinOp::And) != a {
                    Some(ConstValue::Bool(a))
                } else {
                    let b = self.const_truth(env, file, rhs, what, succ32(depth), (fuel - 1) as u64);
                    match b {
                        Some(b) => Some(ConstValue::Bool(b)),
                        None => None,
                    }
                },
                None => None,
            };
        }
        let a = self.const_operand(env, file, lhs, what, succ32(depth), (fuel - 1) as u64);
        match a {
            Some(a) => {
                let b = self.const_operand(env, file, rhs, what, succ32(depth), (fuel - 1) as u64);
                match b {
                    Some(b) => self.folded(env, file, node, binary_values(op, &a, &b)),
                    None => None,
                }
            },
            None => None,
        }
    }

    /// A name in a folded expression.
    pub fn const_name_operand(
        &mut self,
        env: &InferCx,
        file: FileId,
        node: NodeId,
        what: &'static str,
        depth: u32,
        fuel: u64,
    ) -> (r: Option<ConstValue>)
        ensures
            (final(self)@, r) == const_name_operand_spec(old(self)@, env, file, node, what, depth, fuel),
            only_marked(old(self)@, final(self)@),
            quiet_keeps_marks(old(self)@, final(self)@),
            depth <= 32 && fuel + 4 * depth > 149 && r is None ==> spoken(old(self)@, final(self)@),
            crate::keeping::kept(old(self)@, final(self)@),
        decreases fuel,
    {
        if fuel == 0 {
            self.give_up();
            return None;
        }
        proof {
            reveal(crate::keeping::kept);
        }
        match self.resolved_def_in(env, file, node) {
            Some(named) => {
                let def = resolve_alias(env.tables, named);
                match def_kind(env.tables, def) {
                    DefKind::Const => match recorded_const_value(env.tables, def) {
                        Some(v) => Some(v),
                        None => match const_rhs_of(env.tables, def) {
                            Some((cfile, rhs)) => self.const_operand(
                                env,
                                cfile,
                                rhs,
                                what,
                                succ32(depth),
                                (fuel - 1) as u64,
                            ),
                            None => {
                                self.not_constant(env, file, node, what);
                                None
                            },
                        },
                    },
                    DefKind::ConstParam => {
                        self.report_const_in(
                            env,
                            file,
                            node,
                            list5(
                                Part::Text("`"),
                                Part::Name(def_name(env.tables, def)),
                                Part::Text(
                                    "` is a `const` generic parameter, so it cannot be combined with an operator in ",
                                ),
                                Part::Text(what),
                                Part::Text(": its value is not known until the function is instantiated"),
                            ),
                        );
                        None
                    },
                    other => {
                        self.report_const_in(
                            env,
                            file,
                            node,
                            list7(
                                Part::Text("`"),
                                Part::Path(def),
                                Part::Text("` is a "),
                                Part::Text(kind_label(other)),
                                Part::Text(" — "),
                                Part::Text(what),
                                Part::Text(" must be built from constant values"),
                            ),
                        );
                        None
                    },
                }
            },
            _ => {
                self.not_constant(env, file, node, what);
                None
            },
        }
    }

    /// One operand of `&&` or `||`, which must be a `bool`.
    pub fn const_truth(
        &mut self,
        env: &InferCx,
        file: FileId,
        node: NodeId,
        what: &'static str,
        depth: u32,
        fuel: u64,
    ) -> (r: Option<bool>)
        ensures
            (final(self)@, r) == const_truth_spec(old(self)@, env, file, node, what, depth, fuel),
            only_marked(old(self)@, final(self)@),
            quiet_keeps_marks(old(self)@, final(self)@),
            depth <= 33 && fuel + 4 * depth > 151 && r is None ==> spoken(old(self)@, final(self)@),
            crate::keeping::kept(old(self)@, final(self)@),
        decreases fuel,
    {
        if fuel == 0 {
            self.give_up();
            return None;
        }
        proof {
            reveal(crate::keeping::kept);
        }
        let v = self.const_operand(env, file, node, what, depth, (fuel - 1) as u64);
        match v {
            Some(ConstValue::Bool(b)) => Some(b),
            Some(other) => {
                self.report_const_in(
                    env,
                    file,
                    node,
                    list3(Part::Text("`"), Part::Value(other), Part::Text("` is not a `bool`")),
                );
                None
            },
            None => None,
        }
    }

    /// Read a computed value at the type its slot has, or say why it cannot be one.
    /// The range is checked here, where the number still has any size.
    pub fn const_from_value(
        &mut self,
        env: &InferCx,
        file: FileId,
        node: NodeId,
        value: ConstValue,
        want: &Ty,
        what: &'static str,
    ) -> (r: Const)
        ensures
            (final(self)@, r) == const_from_value_spec(old(self)@, env, file, node, value, want, what),
            r == Const::Error
                && crate::unify::numeric_repr_spec(old(self)@, want) != Ty::Error ==> spoken(old(self)@, final(self)@),
            crate::keeping::kept(old(self)@, final(self)@),
    {
        proof {
            reveal(crate::keeping::kept);
        }
        // A literal reaches a `distinct` number with no written cast.
        let repr = self.numeric_repr(want);
        match (&value, &repr) {
            (ConstValue::Int(n), Ty::Int { .. }) => {
                let fits = match int_parts(&repr) {
                    Some((signed, bits)) => int_fits(n, signed, bits),
                    None => true,
                };
                if fits {
                    Const::Value(Box::new(dup_ty(want)), value)
                } else {
                    self.report_const_in(
                        env,
                        file,
                        node,
                        list5(
                            Part::Text("`"),
                            Part::Int(dup_int(n)),
                            Part::Text("` does not fit in `"),
                            Part::Ty(dup_ty(want)),
                            Part::Text("`"),
                        ),
                    );
                    Const::Error
                }
            },
            (ConstValue::Int(_), Ty::ComptimeInt) => Const::Value(Box::new(dup_ty(want)), value),
            (ConstValue::Int(n), Ty::Float(_)) => Const::Value(
                Box::new(dup_ty(want)),
                ConstValue::Float(int_to_double(n)),
            ),
            (ConstValue::Float(_), Ty::Float(_)) => Const::Value(Box::new(dup_ty(want)), value),
            (ConstValue::Bool(_), Ty::Bool) => Const::Value(Box::new(dup_ty(want)), value),
            (ConstValue::Char(_), Ty::Char) => Const::Value(Box::new(dup_ty(want)), value),
            (_, Ty::Error) => Const::Error,
            _ => {
                self.report_const_in(
                    env,
                    file,
                    node,
                    list4(
                        Part::Text(what),
                        Part::Text(" is a `"),
                        Part::Ty(slot_ty(want)),
                        Part::Text("`, and this is not one"),
                    ),
                );
                Const::Error
            },
        }
    }

    /// The value a definition standing in a compile-time slot denotes. A `const`
    /// parameter stays symbolic, and only its type is checked.
    pub fn const_of_def(
        &mut self,
        env: &InferCx,
        file: FileId,
        node: NodeId,
        named: DefId,
        want: &Ty,
        what: &'static str,
        depth: u32,
        fuel: u64,
    ) -> (r: Const)
        ensures
            (final(self)@, r) == const_of_def_spec(
                old(self)@,
                env,
                file,
                node,
                named,
                want,
                what,
                depth,
                fuel,
            ),
            crate::keeping::kept(old(self)@, final(self)@),
        decreases fuel,
    {
        if fuel == 0 {
            self.give_up();
            return Const::Error;
        }
        let def = resolve_alias(env.tables, named);
        match def_kind(env.tables, def) {
            DefKind::ConstParam => {
                let declared = self.const_param_ty(env, def, (fuel - 1) as u64);
                let slot = slot_ty(want);
                if !is_error(&declared)
                    && !is_error(&slot)
                    && !ty_eq(&declared, &slot)
                    && !const_ty_widens(env.tables, &declared, &slot) {
                    self.report_const_in(
                        env,
                        file,
                        node,
                        append(
                            list4(
                                Part::Text("`"),
                                Part::Name(def_name(env.tables, def)),
                                Part::Text("` is a `const "),
                                Part::Ty(declared),
                            ),
                            list5(
                                Part::Text("`, but "),
                                Part::Text(what),
                                Part::Text(" must be a `"),
                                Part::Ty(slot),
                                Part::Text("`"),
                            ),
                        ),
                    );
                    Const::Error
                } else {
                    Const::Param(def)
                }
            },
            DefKind::Const => match recorded_const_value(env.tables, def) {
                Some(v) => self.const_from_value(env, file, node, v, want, what),
                None => match const_rhs_of(env.tables, def) {
                    Some((cfile, rhs)) => self.const_value_in(
                        env,
                        cfile,
                        rhs,
                        want,
                        what,
                        succ32(depth),
                        (fuel - 1) as u64,
                    ),
                    None => Const::Error,
                },
            },
            other => {
                self.report_const_in(
                    env,
                    file,
                    node,
                    list7(
                        Part::Text("`"),
                        Part::Path(def),
                        Part::Text("` is a "),
                        Part::Text(kind_label(other)),
                        Part::Text(" — "),
                        Part::Text(what),
                        Part::Text(" must be a constant value"),
                    ),
                );
                Const::Error
            },
        }
    }

    /// Read one explicit argument in a `const` parameter's slot.
    pub fn const_arg(&mut self, env: &InferCx, param: DefId, arg: NodeId, fuel: u64) -> (r: Const)
        ensures
            (final(self)@, r) == const_arg_spec(old(self)@, env, param, arg, fuel),
            crate::keeping::kept(old(self)@, final(self)@),
        decreases fuel,
    {
        if fuel == 0 {
            self.give_up();
            return Const::Error;
        }
        let declared = self.const_param_ty(env, param, (fuel - 1) as u64);
        let repr = self.numeric_repr(&declared);
        if !is_error(&declared) && !is_primitive(&repr) {
            self.report(
                env,
                arg,
                say_ty("a `const` generic parameter must have a primitive type, not `", declared, "`"),
            );
            return Const::Error;
        }
        self.const_value_in(env, self.file, arg, &declared, "a `const` argument", 0, (fuel - 1) as u64)
    }

    /// Check one `const` parameter's declaration: its type must be primitive, or a
    /// `distinct` over a number.
    pub fn check_const_param(&mut self, env: &InferCx, node: NodeId, fuel: u64)
        ensures
            final(self)@ == check_const_param_spec(old(self)@, env, node, fuel),
            crate::keeping::kept(old(self)@, final(self)@),
        decreases fuel,
    {
        if fuel == 0 {
            self.give_up();
            return;
        }
        match kind_of(env.tables, self.file, node) {
            Some(NodeKind::GenericConstParam { name, ty }) => {
                let t = self.ty_from_node(env, *ty, (fuel - 1) as u64);
                let s = self.shallow(&t, DEPTH_LIMIT);
                let repr = self.numeric_repr(&s);
                if !is_primitive(&repr) && !is_error(&s) {
                    let shown = self.resolve(&t, DEPTH_LIMIT);
                    self.report(
                        env,
                        node,
                        list5(
                            Part::Text("a `const` generic parameter must have a primitive type, but `"),
                            Part::Name(dup_sym(name)),
                            Part::Text("` is `"),
                            Part::Ty(shown),
                            Part::Text("`"),
                        ),
                    );
                }
            },
            _ => {},
        }
    }

    /// The declared type of a `const` parameter.
    pub fn const_param_ty(&mut self, env: &InferCx, param: DefId, fuel: u64) -> (r: Ty)
        ensures
            (final(self)@, r) == const_param_ty_spec(old(self)@, env, param, fuel),
            crate::keeping::kept(old(self)@, final(self)@),
        decreases fuel,
    {
        if fuel == 0 {
            self.give_up();
            return Ty::Error;
        }
        match def_place(env.tables, param) {
            Some((file, node)) => {
                match kind_of(env.tables, file, node) {
                    Some(
                        NodeKind::GenericConstParam { name: _, ty },
                    ) => self.ty_from_node_in(env, file, *ty, (fuel - 1) as u64),
                    _ => Ty::Error,
                }
            },
            _ => {
                Ty::Error
            },
        }
    }

    /// Record what an argument pins an associated type to.
    pub fn record_generic_arg_in(&mut self, env: &InferCx, file: FileId, node: NodeId, fuel: u64)
        ensures
            final(self)@ == record_generic_arg_in_spec(old(self)@, env, file, node, fuel),
            crate::keeping::kept(old(self)@, final(self)@),
        decreases fuel,
    {
        if fuel == 0 {
            self.give_up();
            return;
        }
        match kind_of(env.tables, file, node) {
            Some(NodeKind::AssocBinding { name, ty }) => {
                let t = self.ty_from_node_in(env, file, *ty, (fuel - 1) as u64);
                self.push_assoc((dup_sym(name), t));
            },
            _ => {},
        }
    }

    /// The same for a list of arguments.
    pub fn record_generic_args_in(&mut self, env: &InferCx, file: FileId, l: &List<NodeId>, fuel: u64)
        ensures
            final(self)@ == record_generic_args_in_spec(old(self)@, env, file, l, fuel),
            crate::keeping::kept(old(self)@, final(self)@),
        decreases fuel, l,
    {
        if fuel == 0 {
            self.give_up();
            return;
        }
        match l {
            List::Nil => {},
            List::Cons(h, t) => {
                self.record_generic_arg_in(env, file, *h, (fuel - 1) as u64);
                self.record_generic_args_in(env, file, t, fuel);
            },
        }
    }

    /// The type a type parameter stands for: itself, or what its bound pinned it to.
    pub fn param_ty(&mut self, env: &InferCx, def: DefId, fuel: u64) -> (r: Ty)
        ensures
            (final(self)@, r) == param_ty_spec(old(self)@, env, def, fuel),
            crate::keeping::kept(old(self)@, final(self)@),
        decreases fuel,
    {
        if fuel == 0 {
            self.give_up();
            return Ty::Error;
        }
        match recorded_pinned(env.tables, def) {
            Some(t) => {
                return t;
            },
            None => {},
        }
        match pinned_node(env.tables, def) {
            Some((file, node)) => self.ty_from_node_in(env, file, node, (fuel - 1) as u64),
            None => nominal(def),
        }
    }

    /// The traits some bounds name.
    pub fn bound_trait_defs(&self, env: &InferCx, file: FileId, l: &List<NodeId>) -> (r: List<DefId>)
        ensures
            r == bound_trait_defs_spec(self@, env, file, l),
        decreases l,
    {
        match l {
            List::Nil => List::Nil,
            List::Cons(h, t) => match self.resolved_def_in(env, file, *h) {
                Some(d) => if def_kind(env.tables, d) == DefKind::Trait {
                    List::Cons(d, Box::new(self.bound_trait_defs(env, file, t)))
                } else {
                    self.bound_trait_defs(env, file, t)
                },
                None => self.bound_trait_defs(env, file, t),
            },
        }
    }

    /// The traits that bound a type parameter. One an associated type minted is
    /// bounded by what the associated type's declaration says.
    pub fn param_bound_traits(&self, env: &InferCx, def: DefId) -> (r: List<DefId>)
        ensures
            r == param_bound_traits_spec(self@, env, def),
    {
        match get_def(env.tables, def) {
            Some(d) => match &d.projection {
                Some(p) => match member_of(env.tables, p.trait_def, &p.assoc) {
                    Some(adef) => assoc_bounds_of(env.tables, resolve_alias(env.tables, adef)),
                    None => List::Nil,
                },
                None => match &d.param_bounds {
                    Some(l) => dup_defs(l),
                    None => match constraint_of(env.tables, def) {
                        Some((file, c)) => self.bound_trait_defs(
                            env,
                            file,
                            &bound_nodes(env.tables, file, c),
                        ),
                        None => List::Nil,
                    },
                },
            },
            None => List::Nil,
        }
    }

    /// Whether a type is a type parameter that a trait bounds.
    pub fn param_has_bound(&self, env: &InferCx, ty: &Ty, trait_def: DefId) -> (r: bool)
        ensures
            r == param_has_bound_spec(self@, env, ty, trait_def),
    {
        match self.shallow(ty, DEPTH_LIMIT) {
            Ty::Nominal { def, args: _ } => {
                def_kind(env.tables, def) == DefKind::TypeParam
                    && def_in(&self.param_bound_traits(env, def), trait_def)
            },
            _ => false,
        }
    }

    /// The arguments a bound was written with. Pinned associated types are not among
    /// them.
    pub fn bound_trait_args_in(
        &mut self,
        env: &InferCx,
        file: FileId,
        bound: NodeId,
        fuel: u64,
    ) -> (r: List<Ty>)
        ensures
            (final(self)@, r) == bound_trait_args_in_spec(old(self)@, env, file, bound, fuel),
            crate::keeping::kept(old(self)@, final(self)@),
        decreases fuel,
    {
        if fuel == 0 {
            self.give_up();
            return List::Nil;
        }
        match kind_of(env.tables, file, bound) {
            Some(NodeKind::TypePath { path: _, generic_args }) => {
                self.tys_from_nodes(env, &plain_args(env.tables, file, generic_args), file, (fuel - 1) as u64)
            },
            Some(NodeKind::GenericApply { base: _, args }) => {
                self.tys_from_nodes(env, &plain_args(env.tables, file, args), file, (fuel - 1) as u64)
            },
            _ => List::Nil,
        }
    }

    /// The first of some bounds that names a trait.
    pub fn find_bound(
        &self,
        env: &InferCx,
        file: FileId,
        l: &List<NodeId>,
        trait_def: DefId,
    ) -> (r: Option<NodeId>)
        ensures
            r == find_bound_spec(self@, env, file, l, trait_def),
        decreases l,
    {
        match l {
            List::Nil => None,
            List::Cons(h, t) => if self.resolved_def_in(env, file, *h) == Some(trait_def) {
                Some(*h)
            } else {
                self.find_bound(env, file, t, trait_def)
            },
        }
    }

    /// The arguments a parameter's bound on a trait was written with.
    pub fn bound_args(&mut self, env: &InferCx, param: DefId, trait_def: DefId, fuel: u64) -> (r: List<Ty>)
        ensures
            (final(self)@, r) == bound_args_spec(old(self)@, env, param, trait_def, fuel),
            crate::keeping::kept(old(self)@, final(self)@),
        decreases fuel,
    {
        if fuel == 0 {
            self.give_up();
            return List::Nil;
        }
        match recorded_bound_args(env.tables, param, trait_def) {
            Some(l) => {
                return l;
            },
            None => {},
        }
        if has_projection(env.tables, param) {
            return List::Nil;
        }
        match constraint_of(env.tables, param) {
            Some((file, c)) => match self.find_bound(
                env,
                file,
                &bound_nodes(env.tables, file, c),
                trait_def,
            ) {
                Some(b) => self.bound_trait_args_in(env, file, b, (fuel - 1) as u64),
                None => List::Nil,
            },
            None => List::Nil,
        }
    }

    /// The type of a function definition.
    pub fn func_def_ty(&mut self, env: &InferCx, def: DefId, fuel: u64) -> (r: Ty)
        ensures
            (final(self)@, r) == func_def_ty_spec(old(self)@, env, def, fuel),
            crate::keeping::kept(old(self)@, final(self)@),
        decreases fuel,
    {
        if fuel == 0 {
            self.give_up();
            return Ty::Error;
        }
        match recorded_signature(env.tables, def) {
            Some(sig) => {
                return sig;
            },
            None => {},
        }
        match func_of(env.tables, def) {
            Some((file, func)) => self.func_sig_ty_in(env, file, func, (fuel - 1) as u64),
            None => self.fresh(),
        }
    }

    /// The type of each parameter a list of nodes declares.
    pub fn param_tys_from(
        &mut self,
        env: &InferCx,
        l: &List<NodeId>,
        file: FileId,
        fuel: u64,
    ) -> (r: List<Ty>)
        ensures
            (final(self)@, r) == param_tys_from_spec(old(self)@, env, l, file, fuel),
            crate::keeping::kept(old(self)@, final(self)@),
        decreases fuel, l,
    {
        if fuel == 0 {
            self.give_up();
            return List::Nil;
        }
        match l {
            List::Nil => List::Nil,
            List::Cons(h, t) => {
                let first = match kind_of(env.tables, file, *h) {
                    Some(
                        NodeKind::Param { name: _, ty: Some(n), default: _ },
                    ) => self.ty_from_node_in(env, file, *n, (fuel - 1) as u64),
                    _ => self.fresh(),
                };
                let rest = self.param_tys_from(env, t, file, fuel);
                List::Cons(first, Box::new(rest))
            },
        }
    }

    /// The signature of a `func` expression.
    pub fn func_sig_ty_in(&mut self, env: &InferCx, file: FileId, func: NodeId, fuel: u64) -> (r: Ty)
        ensures
            (final(self)@, r) == func_sig_ty_in_spec(old(self)@, env, file, func, fuel),
            crate::keeping::kept(old(self)@, final(self)@),
        decreases fuel,
    {
        if fuel == 0 {
            self.give_up();
            return Ty::Error;
        }
        match kind_of(env.tables, file, func) {
            Some(NodeKind::FuncExpr { generics: _, params, ret, body: _, abi }) => {
                let ps = self.param_tys_from(env, params, file, (fuel - 1) as u64);
                let r = self.ret_from_node(env, file, *ret, (fuel - 1) as u64);
                Ty::Func { params: Box::new(ps), ret: Box::new(r), c: abi.is_some() }
            },
            _ => self.fresh(),
        }
    }

    /// The recorded type of each parameter, a variable where none was.
    pub fn recorded_param_tys(&mut self, l: &List<NodeId>) -> (r: List<Ty>)
        ensures
            (final(self)@, r) == recorded_param_tys_spec(old(self)@, l),
            crate::keeping::kept(old(self)@, final(self)@),
        decreases l,
    {
        match l {
            List::Nil => List::Nil,
            List::Cons(h, t) => {
                let first = match self.get_type(*h) {
                    Some(ty) => ty,
                    None => self.fresh(),
                };
                let rest = self.recorded_param_tys(t);
                List::Cons(first, Box::new(rest))
            },
        }
    }

    /// The signature of a function that was just inferred, read back from what was
    /// recorded: reading its syntax again would report its mistakes again.
    pub fn inferred_sig_ty(&mut self, env: &InferCx, func: NodeId) -> (r: Ty)
        ensures
            (final(self)@, r) == inferred_sig_ty_spec(old(self)@, env, func),
            crate::keeping::kept(old(self)@, final(self)@),
    {
        match kind_of(env.tables, self.file, func) {
            Some(NodeKind::FuncExpr { generics: _, params, ret: _, body: _, abi }) => {
                let ps = self.recorded_param_tys(params);
                let r = match self.get_type(func) {
                    Some(t) => t,
                    None => Ty::Void,
                };
                Ty::Func { params: Box::new(ps), ret: Box::new(r), c: abi.is_some() }
            },
            _ => self.fresh(),
        }
    }

    /// A type definition's type, its arguments left to inference.
    pub fn nominal_of(&mut self, env: &InferCx, def: DefId) -> (r: Ty)
        ensures
            (final(self)@, r) == nominal_of_spec(old(self)@, env, def),
            crate::keeping::kept(old(self)@, final(self)@),
    {
        let generics = self.declared_generics(env, def);
        let args = self.fresh_each(&generics);
        Ty::Nominal { def: def, args: Box::new(args) }
    }

    /// The type a member's declaration writes, if it writes one.
    pub fn declared_member_ty(&mut self, env: &InferCx, def: DefId, fuel: u64) -> (r: Option<Ty>)
        ensures
            (final(self)@, r) == declared_member_ty_spec(old(self)@, env, def, fuel),
            crate::keeping::kept(old(self)@, final(self)@),
        decreases fuel,
    {
        if fuel == 0 {
            self.give_up();
            return None;
        }
        match recorded_assoc_const_ty(env.tables, def) {
            Some(t) => {
                return Some(t);
            },
            None => {},
        }
        match def_place(env.tables, def) {
            Some((file, node)) => {
                match kind_of(env.tables, file, node) {
                    Some(NodeKind::ConstBind { pattern: _, rhs }) => {
                        match kind_of(env.tables, file, *rhs) {
                            Some(NodeKind::AssocConst { ty, default: _ }) => {
                                let t = self.ty_from_node_in(env, file, *ty, (fuel - 1) as u64);
                                Some(t)
                            },
                            _ => None,
                        }
                    },
                    _ => {
                        None
                    },
                }
            },
            _ => {
                None
            },
        }
    }

    /// The declared type of a field, before its struct's parameters are replaced.
    pub fn raw_field_ty(&mut self, env: &InferCx, field: DefId, fuel: u64) -> (r: Option<Ty>)
        ensures
            (final(self)@, r) == raw_field_ty_spec(old(self)@, env, field, fuel),
            crate::keeping::kept(old(self)@, final(self)@),
        decreases fuel,
    {
        if fuel == 0 {
            self.give_up();
            return None;
        }
        match recorded_field_ty(env.tables, field) {
            Some(t) => {
                return Some(t);
            },
            None => {},
        }
        match def_place(env.tables, field) {
            Some((file, node)) => {
                match kind_of(env.tables, file, node) {
                    Some(NodeKind::Field { name: _, ty }) => {
                        let t = self.ty_from_node_in(env, file, *ty, (fuel - 1) as u64);
                        Some(t)
                    },
                    _ => {
                        let t = self.ty_from_node_in(env, file, node, (fuel - 1) as u64);
                        Some(t)
                    },
                }
            },
            _ => {
                None
            },
        }
    }

    /// The type of a field the compiler looks up on its own account.
    pub fn field_ty(&mut self, env: &InferCx, base: &Ty, name: &Symbol, fuel: u64) -> (r: Option<Ty>)
        ensures
            (final(self)@, r) == field_ty_spec(old(self)@, env, base, name, fuel),
            crate::keeping::kept(old(self)@, final(self)@),
        decreases fuel,
    {
        if fuel == 0 {
            self.give_up();
            return None;
        }
        self.field_ty_at(env, None, base, name, (fuel - 1) as u64)
    }

    /// The type of a field, with its struct's parameters replaced by the use's
    /// arguments, through any pointers. Where the program wrote the field, its
    /// privacy is checked there.
    pub fn field_ty_at(
        &mut self,
        env: &InferCx,
        at: Option<NodeId>,
        base: &Ty,
        name: &Symbol,
        fuel: u64,
    ) -> (r: Option<Ty>)
        ensures
            (final(self)@, r) == field_ty_at_spec(old(self)@, env, at, base, name, fuel),
            crate::keeping::kept(old(self)@, final(self)@),
        decreases fuel,
    {
        if fuel == 0 {
            self.give_up();
            return None;
        }
        match self.autoderef(base, DEPTH_LIMIT) {
            Ty::Struct(fields) => match find_named(&fields, name) {
                Some(t) => Some(dup_ty(t)),
                None => None,
            },
            Ty::Nominal { def, args } => {
                match field_def(env.tables, def, name) {
                    Some(field) => {
                        match at {
                            Some(n) => {
                                self.check_field_visible(env, n, def, field);
                            },
                            None => {},
                        }
                        let raw = self.raw_field_ty(env, field, (fuel - 1) as u64);
                        match raw {
                            Some(t) => Some(subst_ty(&t, &self.nominal_subst(env, def, &args))),
                            None => None,
                        }
                    },
                    _ => {
                        None
                    },
                }
            },
            _ => None,
        }
    }

    /// The types of a tuple payload.
    pub fn tuple_payload(
        &mut self,
        env: &InferCx,
        file: FileId,
        l: &List<NodeId>,
        fuel: u64,
    ) -> (r: List<(Option<Symbol>, Ty)>)
        ensures
            (final(self)@, r) == tuple_payload_spec(old(self)@, env, file, l, fuel),
            crate::keeping::kept(old(self)@, final(self)@),
        decreases fuel, l,
    {
        if fuel == 0 {
            self.give_up();
            return List::Nil;
        }
        match l {
            List::Nil => List::Nil,
            List::Cons(h, t) => {
                let ty = self.ty_from_node_in(env, file, *h, (fuel - 1) as u64);
                let rest = self.tuple_payload(env, file, t, fuel);
                List::Cons((None, ty), Box::new(rest))
            },
        }
    }

    /// The names and types of a record payload.
    pub fn record_payload(
        &mut self,
        env: &InferCx,
        file: FileId,
        l: &List<NodeId>,
        fuel: u64,
    ) -> (r: List<(Option<Symbol>, Ty)>)
        ensures
            (final(self)@, r) == record_payload_spec(old(self)@, env, file, l, fuel),
            crate::keeping::kept(old(self)@, final(self)@),
        decreases fuel, l,
    {
        if fuel == 0 {
            self.give_up();
            return List::Nil;
        }
        match l {
            List::Nil => List::Nil,
            List::Cons(h, t) => match kind_of(env.tables, file, *h) {
                Some(NodeKind::Field { name, ty }) => {
                    let ty = self.ty_from_node_in(env, file, *ty, (fuel - 1) as u64);
                    let rest = self.record_payload(env, file, t, fuel);
                    List::Cons((Some(dup_sym(name)), ty), Box::new(rest))
                },
                _ => self.record_payload(env, file, t, fuel),
            },
        }
    }

    /// The payload of a variant as it was declared.
    pub fn raw_payload(
        &mut self,
        env: &InferCx,
        variant: DefId,
        fuel: u64,
    ) -> (r: Option<List<(Option<Symbol>, Ty)>>)
        ensures
            (final(self)@, r) == raw_payload_spec(old(self)@, env, variant, fuel),
            crate::keeping::kept(old(self)@, final(self)@),
        decreases fuel,
    {
        if fuel == 0 {
            self.give_up();
            return None;
        }
        match recorded_payload(env.tables, variant) {
            Some(l) => {
                return Some(l);
            },
            None => {},
        }
        match def_place(env.tables, variant) {
            Some((file, node)) => {
                match kind_of(env.tables, file, node) {
                    Some(NodeKind::Variant { name: _, payload, value: _ }) => {
                        match payload {
                            VariantPayload::Unit => Some(List::Nil),
                            VariantPayload::Tuple(tys) => {
                                let l = self.tuple_payload(env, file, tys, (fuel - 1) as u64);
                                Some(l)
                            },
                            VariantPayload::Record(fields) => {
                                let l = self.record_payload(env, file, fields, (fuel - 1) as u64);
                                Some(l)
                            },
                        }
                    },
                    _ => {
                        None
                    },
                }
            },
            _ => {
                None
            },
        }
    }

    /// The payload types of an enum's variant, in order, each with its field name
    /// where it has one. `None` where the type is no enum with that variant.
    pub fn variant_payload(
        &mut self,
        env: &InferCx,
        base: &Ty,
        name: &Symbol,
        fuel: u64,
    ) -> (r: Option<List<(Option<Symbol>, Ty)>>)
        ensures
            (final(self)@, r) == variant_payload_spec(old(self)@, env, base, name, fuel),
            crate::keeping::kept(old(self)@, final(self)@),
        decreases fuel,
    {
        if fuel == 0 {
            self.give_up();
            return None;
        }
        match self.autoderef(base, DEPTH_LIMIT) {
            Ty::Nominal { def, args } => {
                match member_of(env.tables, def, name) {
                    Some(variant) => {
                        if def_kind(env.tables, variant) != DefKind::Variant {
                            return None;
                        }
                        let raw = self.raw_payload(env, variant, (fuel - 1) as u64);
                        match raw {
                            Some(l) => Some(subst_payload(&l, &self.nominal_subst(env, def, &args))),
                            None => None,
                        }
                    },
                    _ => {
                        None
                    },
                }
            },
            _ => None,
        }
    }

    /// The positional field types of a tuple struct as it was declared.
    pub fn raw_tuple_tys(&mut self, env: &InferCx, def: DefId, fuel: u64) -> (r: Option<List<Ty>>)
        ensures
            (final(self)@, r) == raw_tuple_tys_spec(old(self)@, env, def, fuel),
            crate::keeping::kept(old(self)@, final(self)@),
        decreases fuel,
    {
        if fuel == 0 {
            self.give_up();
            return None;
        }
        match recorded_tuple_tys(env.tables, def) {
            Some(l) => {
                return Some(l);
            },
            None => {},
        }
        match def_place(env.tables, def) {
            Some((file, node)) => {
                let rhs = bound_rhs(env.tables, file, node);
                match kind_of(env.tables, file, rhs) {
                    Some(NodeKind::StructType { generics: _, kind: StructKind::Tuple(tys) }) => {
                        let l = self.tys_from_nodes(env, tys, file, (fuel - 1) as u64);
                        Some(l)
                    },
                    _ => None,
                }
            },
            _ => {
                None
            },
        }
    }

    /// The positional field types of a tuple struct. `None` where the type is none.
    pub fn tuple_struct_tys(&mut self, env: &InferCx, base: &Ty, fuel: u64) -> (r: Option<List<Ty>>)
        ensures
            (final(self)@, r) == tuple_struct_tys_spec(old(self)@, env, base, fuel),
            crate::keeping::kept(old(self)@, final(self)@),
        decreases fuel,
    {
        if fuel == 0 {
            self.give_up();
            return None;
        }
        match self.autoderef(base, DEPTH_LIMIT) {
            Ty::Nominal { def, args } => {
                let raw = self.raw_tuple_tys(env, def, (fuel - 1) as u64);
                match raw {
                    Some(l) => Some(subst_tys(&l, &self.nominal_subst(env, def, &args))),
                    None => None,
                }
            },
            _ => None,
        }
    }

    /// The definition a type names, through at most one pointer, and that pointer's
    /// permission.
    pub fn nominal_head(&self, ty: &Ty) -> (r: Option<(DefId, Option<bool>)>)
        ensures
            r == nominal_head_spec(self@, ty),
    {
        match self.shallow(ty, DEPTH_LIMIT) {
            Ty::Nominal { def, args: _ } => Some((def, None)),
            Ty::Ptr { mutable, inner } => match self.shallow(&inner, DEPTH_LIMIT) {
                Ty::Nominal { def, args: _ } => Some((def, Some(mutable))),
                _ => None,
            },
            _ => None,
        }
    }

    /// The type a `distinct` type is distinct from, through at most one pointer.
    pub fn distinct_repr(&mut self, env: &InferCx, recv: &Ty, fuel: u64) -> (r: Option<Ty>)
        ensures
            (final(self)@, r) == distinct_repr_spec(old(self)@, env, recv, fuel),
            crate::keeping::kept(old(self)@, final(self)@),
        decreases fuel,
    {
        if fuel == 0 {
            self.give_up();
            return None;
        }
        match self.nominal_head(recv) {
            Some((def, ptr)) => {
                match recorded_distinct_repr(env.tables, def) {
                    Some(t) => {
                        return Some(behind(ptr, t));
                    },
                    None => {},
                }
                match def_place(env.tables, def) {
                    Some((file, node)) => {
                        let rhs = bound_rhs(env.tables, file, node);
                        match kind_of(env.tables, file, rhs) {
                            Some(NodeKind::DistinctType { inner }) => {
                                let t = self.ty_from_node_in(env, file, *inner, (fuel - 1) as u64);
                                Some(behind(ptr, t))
                            },
                            _ => None,
                        }
                    },
                    _ => {
                        None
                    },
                }
            },
            _ => {
                None
            },
        }
    }

    /// Whether a private member may be named where the current expression is
    /// written: in the namespace that declares its owner, or in anything nested
    /// there.
    pub fn visible_here(&self, env: &InferCx, owner: DefId) -> (r: bool)
        ensures
            r == visible_here_spec(self@, env, owner),
    {
        match self.ctx {
            Some(ctx) => {
                let home = match def_parent(env.tables, owner) {
                    Some(p) => p,
                    None => owner,
                };
                inside(env.tables, Some(ctx), home, owner, DEPTH_LIMIT)
            },
            None => true,
        }
    }

    /// Whether a field is exported far enough to be named in the file being
    /// inferred.
    pub fn field_reaches_here(&self, env: &InferCx, field: DefId) -> (r: bool)
        ensures
            r == field_reaches_here_spec(self@, env, field),
    {
        if !self.packaged {
            true
        } else {
            match get_def(env.tables, field) {
                Some(d) => match d.vis {
                    Vis::Public => true,
                    Vis::Private => false,
                    Vis::Package => {
                        let home = match d.file {
                            Some(f) => package_of(env.tables, f),
                            None => None,
                        };
                        same_package(home, package_of(env.tables, self.file))
                    },
                },
                None => false,
            }
        }
    }

    /// Complain about a field named from outside the namespace that declares its
    /// struct.
    pub fn check_field_visible(&mut self, env: &InferCx, at: NodeId, owner: DefId, field: DefId)
        ensures
            final(self)@ == check_field_visible_spec(old(self)@, env, at, owner, field),
            crate::keeping::kept(old(self)@, final(self)@),
    {
        if !self.field_reaches_here(env, field) && !self.visible_here(env, owner) {
            let t = def_name(env.tables, owner);
            self.report_with_note(
                env,
                at,
                list5(
                    Part::Text("the field `"),
                    Part::Name(def_name(env.tables, field)),
                    Part::Text("` of `"),
                    Part::Name(dup_sym(&t)),
                    Part::Text("` is private"),
                ),
                say_name(
                    "a field is private unless `",
                    &t,
                    "` says otherwise — `@public(all)`, `@public(fields: package)` — or the field itself is `@public` / `@public(package)`",
                ),
            );
        }
    }
}

} // verus!
