//! Substitutions, and the walks over types that need nothing but the type.

use vstd::prelude::*;

use crate::ids::DefId;
use crate::list::{is_empty, list_len, single, List};
use crate::symbol::{dup_sym, text_before, Symbol};
use crate::ty::{const_value, dup_const, dup_ty, dup_tys, ty_eq, Const, Ty};

verus! {

/// What an instantiation binds a set of generic parameters to: types, and
/// compile-time values. A later binding of a parameter hides an earlier one.
pub struct Subst {
    pub tys: List<(DefId, Ty)>,
    pub consts: List<(DefId, Const)>,
}

/// A copy of a list of bindings.
pub fn dup_def_tys(l: &List<(DefId, Ty)>) -> (r: List<(DefId, Ty)>)
    ensures
        r == *l,
    decreases l,
{
    match l {
        List::Nil => List::Nil,
        List::Cons(h, t) => List::Cons((h.0, dup_ty(&h.1)), Box::new(dup_def_tys(t))),
    }
}

/// A copy of a list of bindings.
pub fn dup_def_consts(l: &List<(DefId, Const)>) -> (r: List<(DefId, Const)>)
    ensures
        r == *l,
    decreases l,
{
    match l {
        List::Nil => List::Nil,
        List::Cons(h, t) => List::Cons((h.0, dup_const(&h.1)), Box::new(dup_def_consts(t))),
    }
}

/// A copy of a substitution.
pub fn dup_subst(s: &Subst) -> (r: Subst)
    ensures
        r == *s,
{
    Subst { tys: dup_def_tys(&s.tys), consts: dup_def_consts(&s.consts) }
}

/// [`of_types`], as a mathematical function.
pub open spec fn of_types_spec(tys: List<(DefId, Ty)>) -> Subst {
    Subst { tys: tys, consts: List::Nil }
}

/// A substitution that only maps types.
pub fn of_types(tys: List<(DefId, Ty)>) -> (r: Subst)
    ensures
        r == of_types_spec(tys),
{
    Subst { tys: tys, consts: List::Nil }
}

/// [`no_subst`], as a mathematical function.
pub open spec fn no_subst_spec() -> Subst {
    Subst { tys: List::Nil, consts: List::Nil }
}

/// The substitution that changes nothing.
pub fn no_subst() -> (r: Subst)
    ensures
        r == no_subst_spec(),
{
    Subst { tys: List::Nil, consts: List::Nil }
}

/// [`bind_ty`], as a mathematical function.
pub open spec fn bind_ty_spec(s: Subst, d: DefId, t: Ty) -> Subst {
    Subst { tys: List::Cons((d, t), Box::new(s.tys)), consts: s.consts }
}

/// A substitution with one more type bound.
pub fn bind_ty(s: Subst, d: DefId, t: Ty) -> (r: Subst)
    ensures
        r == bind_ty_spec(s, d, t),
{
    Subst { tys: List::Cons((d, t), Box::new(s.tys)), consts: s.consts }
}

/// [`bind_const`], as a mathematical function.
pub open spec fn bind_const_spec(s: Subst, d: DefId, c: Const) -> Subst {
    Subst { tys: s.tys, consts: List::Cons((d, c), Box::new(s.consts)) }
}

/// A substitution with one more value bound.
pub fn bind_const(s: Subst, d: DefId, c: Const) -> (r: Subst)
    ensures
        r == bind_const_spec(s, d, c),
{
    Subst { tys: s.tys, consts: List::Cons((d, c), Box::new(s.consts)) }
}

/// [`find_ty`], as a mathematical function.
pub open spec fn find_ty_spec(l: &List<(DefId, Ty)>, d: DefId) -> Option<&Ty>
    decreases l,
{
    match l {
        List::Nil => None,
        List::Cons(h, t) => if h.0 == d {
            Some(&h.1)
        } else {
            find_ty_spec(t, d)
        },
    }
}

/// What a parameter is bound to.
pub fn find_ty(l: &List<(DefId, Ty)>, d: DefId) -> (r: Option<&Ty>)
    ensures
        r == find_ty_spec(l, d),
    decreases l,
{
    match l {
        List::Nil => None,
        List::Cons(h, t) => if h.0 == d {
            Some(&h.1)
        } else {
            find_ty(t, d)
        },
    }
}

/// [`find_const`], as a mathematical function.
pub open spec fn find_const_spec(l: &List<(DefId, Const)>, d: DefId) -> Option<&Const>
    decreases l,
{
    match l {
        List::Nil => None,
        List::Cons(h, t) => if h.0 == d {
            Some(&h.1)
        } else {
            find_const_spec(t, d)
        },
    }
}

/// What a `const` parameter is bound to.
pub fn find_const(l: &List<(DefId, Const)>, d: DefId) -> (r: Option<&Const>)
    ensures
        r == find_const_spec(l, d),
    decreases l,
{
    match l {
        List::Nil => None,
        List::Cons(h, t) => if h.0 == d {
            Some(&h.1)
        } else {
            find_const(t, d)
        },
    }
}

/// [`bound_to`], as a mathematical function.
pub open spec fn bound_to_spec(s: &Subst, d: DefId) -> Option<Ty> {
    match find_ty_spec(&s.tys, d) {
        Some(t) => Some((*t)),
        None => None,
    }
}

/// The type a parameter is bound to.
pub fn bound_to(s: &Subst, d: DefId) -> (r: Option<Ty>)
    ensures
        r == bound_to_spec(s, d),
{
    match find_ty(&s.tys, d) {
        Some(t) => Some(dup_ty(t)),
        None => None,
    }
}

/// [`subst_const`], as a mathematical function.
pub open spec fn subst_const_spec(c: &Const, map: &Subst) -> Const {
    match c {
        Const::Param(d) => match find_const_spec(&map.consts, *d) {
            Some(k) => (*k),
            None => (*c),
        },
        _ => (*c),
    }
}

/// Apply an instantiation to one compile-time value: a parameter becomes what it
/// is bound to, and everything else stands.
pub fn subst_const(c: &Const, map: &Subst) -> (r: Const)
    ensures
        r == subst_const_spec(c, map),
{
    match c {
        Const::Param(d) => match find_const(&map.consts, *d) {
            Some(k) => dup_const(k),
            None => dup_const(c),
        },
        _ => dup_const(c),
    }
}

/// [`subst_ty`], as a mathematical function.
pub open spec fn subst_ty_spec(ty: &Ty, map: &Subst) -> Ty
    decreases ty,
{
    match ty {
        Ty::Nominal { def, args } => match find_ty_spec(&map.tys, *def) {
            Some(t) => (*t),
            None => Ty::Nominal { def: *def, args: Box::new(subst_tys_spec(args, map)) },
        },
        Ty::Ptr { mutable, inner } => Ty::Ptr {
            mutable: *mutable,
            inner: Box::new(subst_ty_spec(inner, map)),
        },
        Ty::Slice { mutable, inner } => Ty::Slice {
            mutable: *mutable,
            inner: Box::new(subst_ty_spec(inner, map)),
        },
        Ty::Array { len, mutable, inner } => Ty::Array {
            len: subst_const_spec(len, map),
            mutable: *mutable,
            inner: Box::new(subst_ty_spec(inner, map)),
        },
        Ty::Int { signed, width } => Ty::Int { signed: *signed, width: subst_const_spec(width, map) },
        Ty::Tuple(elems) => Ty::Tuple(Box::new(subst_tys_spec(elems, map))),
        Ty::Func { params, ret, c } => Ty::Func {
            params: Box::new(subst_tys_spec(params, map)),
            ret: Box::new(subst_ty_spec(ret, map)),
            c: *c,
        },
        _ => (*ty),
    }
}

/// Apply an instantiation to a type. A parameter is replaced wherever its
/// definition is named, whatever it is applied to.
pub fn subst_ty(ty: &Ty, map: &Subst) -> (r: Ty)
    ensures
        r == subst_ty_spec(ty, map),
    decreases ty,
{
    match ty {
        Ty::Nominal { def, args } => match find_ty(&map.tys, *def) {
            Some(t) => dup_ty(t),
            None => Ty::Nominal { def: *def, args: Box::new(subst_tys(args, map)) },
        },
        Ty::Ptr { mutable, inner } => Ty::Ptr { mutable: *mutable, inner: Box::new(subst_ty(inner, map)) },
        Ty::Slice { mutable, inner } => Ty::Slice {
            mutable: *mutable,
            inner: Box::new(subst_ty(inner, map)),
        },
        Ty::Array { len, mutable, inner } => Ty::Array {
            len: subst_const(len, map),
            mutable: *mutable,
            inner: Box::new(subst_ty(inner, map)),
        },
        Ty::Int { signed, width } => Ty::Int { signed: *signed, width: subst_const(width, map) },
        Ty::Tuple(elems) => Ty::Tuple(Box::new(subst_tys(elems, map))),
        Ty::Func { params, ret, c } => Ty::Func {
            params: Box::new(subst_tys(params, map)),
            ret: Box::new(subst_ty(ret, map)),
            c: *c,
        },
        _ => dup_ty(ty),
    }
}

/// [`subst_tys`], as a mathematical function.
pub open spec fn subst_tys_spec(l: &List<Ty>, map: &Subst) -> List<Ty>
    decreases l,
{
    match l {
        List::Nil => List::Nil,
        List::Cons(h, t) => List::Cons(subst_ty_spec(h, map), Box::new(subst_tys_spec(t, map))),
    }
}

/// Apply an instantiation to a list of types.
pub fn subst_tys(l: &List<Ty>, map: &Subst) -> (r: List<Ty>)
    ensures
        r == subst_tys_spec(l, map),
    decreases l,
{
    match l {
        List::Nil => List::Nil,
        List::Cons(h, t) => List::Cons(subst_ty(h, map), Box::new(subst_tys(t, map))),
    }
}

/// [`subst_payload`], as a mathematical function.
pub open spec fn subst_payload_spec(l: &List<(Option<Symbol>, Ty)>, map: &Subst) -> List<(Option<Symbol>, Ty)>
    decreases l,
{
    match l {
        List::Nil => List::Nil,
        List::Cons(h, t) => List::Cons((h.0, subst_ty_spec(&h.1, map)), Box::new(subst_payload_spec(t, map))),
    }
}

/// Apply an instantiation to a list of types that may be named.
pub fn subst_payload(l: &List<(Option<Symbol>, Ty)>, map: &Subst) -> (r: List<(Option<Symbol>, Ty)>)
    ensures
        r == subst_payload_spec(l, map),
    decreases l,
{
    match l {
        List::Nil => List::Nil,
        List::Cons(h, t) => List::Cons(
            (dup_opt_sym(&h.0), subst_ty(&h.1, map)),
            Box::new(subst_payload(t, map)),
        ),
    }
}

/// A copy of a name that may be absent.
pub fn dup_opt_sym(o: &Option<Symbol>) -> (r: Option<Symbol>)
    ensures
        r == *o,
{
    match o {
        Some(s) => Some(dup_sym(s)),
        None => None,
    }
}

/// [`zip_subst`], as a mathematical function.
pub open spec fn zip_subst_spec(params: &List<DefId>, args: &List<Ty>) -> List<(DefId, Ty)>
    decreases params,
{
    match (params, args) {
        (List::Cons(p, ps), List::Cons(a, rest)) => {
            List::Cons((*p, (*a)), Box::new(zip_subst_spec(ps, rest)))
        },
        _ => List::Nil,
    }
}

/// Bind parameters to arguments, position by position.
pub fn zip_subst(params: &List<DefId>, args: &List<Ty>) -> (r: List<(DefId, Ty)>)
    ensures
        r == zip_subst_spec(params, args),
    decreases params,
{
    match (params, args) {
        (List::Cons(p, ps), List::Cons(a, rest)) => {
            List::Cons((*p, dup_ty(a)), Box::new(zip_subst(ps, rest)))
        },
        _ => List::Nil,
    }
}

/// [`rebind_ty`], as a mathematical function.
pub open spec fn rebind_ty_spec(ty: &Ty, from: &Ty, to: &Ty) -> Ty
    decreases ty,
{
    if crate::ty::ty_eq_spec(ty, from) {
        (*to)
    } else {
        match ty {
            Ty::Ptr { mutable, inner } => {
                Ty::Ptr { mutable: *mutable, inner: Box::new(rebind_ty_spec(inner, from, to)) }
            },
            Ty::Slice { mutable, inner } => {
                Ty::Slice { mutable: *mutable, inner: Box::new(rebind_ty_spec(inner, from, to)) }
            },
            Ty::Array { len, mutable, inner } => Ty::Array {
                len: (*len),
                mutable: *mutable,
                inner: Box::new(rebind_ty_spec(inner, from, to)),
            },
            Ty::Tuple(elems) => Ty::Tuple(Box::new(rebind_tys_spec(elems, from, to))),
            Ty::Dyn { def, assoc } => Ty::Dyn {
                def: *def,
                assoc: Box::new(rebind_named_spec(assoc, from, to)),
            },
            Ty::Struct(fields) => Ty::Struct(Box::new(rebind_named_spec(fields, from, to))),
            Ty::Func { params, ret, c } => Ty::Func {
                params: Box::new(rebind_tys_spec(params, from, to)),
                ret: Box::new(rebind_ty_spec(ret, from, to)),
                c: *c,
            },
            Ty::Nominal { def, args } => Ty::Nominal {
                def: *def,
                args: Box::new(rebind_tys_spec(args, from, to)),
            },
            _ => (*ty),
        }
    }
}

/// Replace every occurrence of `from` with `to` inside a type.
pub fn rebind_ty(ty: &Ty, from: &Ty, to: &Ty) -> (r: Ty)
    ensures
        r == rebind_ty_spec(ty, from, to),
    decreases ty,
{
    if ty_eq(ty, from) {
        dup_ty(to)
    } else {
        match ty {
            Ty::Ptr { mutable, inner } => {
                Ty::Ptr { mutable: *mutable, inner: Box::new(rebind_ty(inner, from, to)) }
            },
            Ty::Slice { mutable, inner } => {
                Ty::Slice { mutable: *mutable, inner: Box::new(rebind_ty(inner, from, to)) }
            },
            Ty::Array { len, mutable, inner } => Ty::Array {
                len: dup_const(len),
                mutable: *mutable,
                inner: Box::new(rebind_ty(inner, from, to)),
            },
            Ty::Tuple(elems) => Ty::Tuple(Box::new(rebind_tys(elems, from, to))),
            Ty::Dyn { def, assoc } => Ty::Dyn { def: *def, assoc: Box::new(rebind_named(assoc, from, to)) },
            Ty::Struct(fields) => Ty::Struct(Box::new(rebind_named(fields, from, to))),
            Ty::Func { params, ret, c } => Ty::Func {
                params: Box::new(rebind_tys(params, from, to)),
                ret: Box::new(rebind_ty(ret, from, to)),
                c: *c,
            },
            Ty::Nominal { def, args } => Ty::Nominal {
                def: *def,
                args: Box::new(rebind_tys(args, from, to)),
            },
            _ => dup_ty(ty),
        }
    }
}

/// [`rebind_tys`], as a mathematical function.
pub open spec fn rebind_tys_spec(l: &List<Ty>, from: &Ty, to: &Ty) -> List<Ty>
    decreases l,
{
    match l {
        List::Nil => List::Nil,
        List::Cons(h, t) => List::Cons(rebind_ty_spec(h, from, to), Box::new(rebind_tys_spec(t, from, to))),
    }
}

/// The same over a list of types.
pub fn rebind_tys(l: &List<Ty>, from: &Ty, to: &Ty) -> (r: List<Ty>)
    ensures
        r == rebind_tys_spec(l, from, to),
    decreases l,
{
    match l {
        List::Nil => List::Nil,
        List::Cons(h, t) => List::Cons(rebind_ty(h, from, to), Box::new(rebind_tys(t, from, to))),
    }
}

/// [`rebind_named`], as a mathematical function.
pub open spec fn rebind_named_spec(l: &List<(Symbol, Ty)>, from: &Ty, to: &Ty) -> List<(Symbol, Ty)>
    decreases l,
{
    match l {
        List::Nil => List::Nil,
        List::Cons(h, t) => List::Cons(
            (h.0, rebind_ty_spec(&h.1, from, to)),
            Box::new(rebind_named_spec(t, from, to)),
        ),
    }
}

/// The same over a list of named types.
pub fn rebind_named(l: &List<(Symbol, Ty)>, from: &Ty, to: &Ty) -> (r: List<(Symbol, Ty)>)
    ensures
        r == rebind_named_spec(l, from, to),
    decreases l,
{
    match l {
        List::Nil => List::Nil,
        List::Cons(h, t) => List::Cons(
            (dup_sym(&h.0), rebind_ty(&h.1, from, to)),
            Box::new(rebind_named(t, from, to)),
        ),
    }
}

/// [`all_vars`], as a mathematical function.
pub open spec fn all_vars_spec(l: &List<Ty>) -> bool
    decreases l,
{
    match l {
        List::Nil => true,
        List::Cons(h, t) => is_var_spec(h) && all_vars_spec(t),
    }
}

/// Whether every type of a list is an unsolved variable.
pub fn all_vars(l: &List<Ty>) -> (r: bool)
    ensures
        r == all_vars_spec(l),
    decreases l,
{
    match l {
        List::Nil => true,
        List::Cons(h, t) => is_var(h) && all_vars(t),
    }
}

/// [`rigid_self_in`], as a mathematical function.
pub open spec fn rigid_self_in_spec(ty: &Ty, trait_def: DefId, params: &List<Ty>) -> Ty
    decreases ty,
{
    match ty {
        Ty::Nominal { def, args } => if *def == trait_def
            && crate::list::list_len_spec(args) == crate::list::list_len_spec(params)
            && all_vars_spec(args) {
            Ty::Nominal { def: *def, args: Box::new((*params)) }
        } else {
            Ty::Nominal { def: *def, args: Box::new(rigid_self_tys_spec(args, trait_def, params)) }
        },
        Ty::Ptr { mutable, inner } => {
            Ty::Ptr { mutable: *mutable, inner: Box::new(rigid_self_in_spec(inner, trait_def, params)) }
        },
        Ty::Slice { mutable, inner } => {
            Ty::Slice { mutable: *mutable, inner: Box::new(rigid_self_in_spec(inner, trait_def, params)) }
        },
        Ty::Array { len, mutable, inner } => Ty::Array {
            len: (*len),
            mutable: *mutable,
            inner: Box::new(rigid_self_in_spec(inner, trait_def, params)),
        },
        Ty::Tuple(elems) => Ty::Tuple(Box::new(rigid_self_tys_spec(elems, trait_def, params))),
        Ty::Dyn { def, assoc } => {
            Ty::Dyn { def: *def, assoc: Box::new(rigid_self_named_spec(assoc, trait_def, params)) }
        },
        Ty::Struct(fields) => Ty::Struct(Box::new(rigid_self_named_spec(fields, trait_def, params))),
        Ty::Func { params: ps, ret, c } => Ty::Func {
            params: Box::new(rigid_self_tys_spec(ps, trait_def, params)),
            ret: Box::new(rigid_self_in_spec(ret, trait_def, params)),
            c: *c,
        },
        _ => (*ty),
    }
}

/// Put a trait's own parameters back where naming the trait bare left
/// variables.
pub fn rigid_self_in(ty: &Ty, trait_def: DefId, params: &List<Ty>) -> (r: Ty)
    ensures
        r == rigid_self_in_spec(ty, trait_def, params),
    decreases ty,
{
    match ty {
        Ty::Nominal { def, args } => if *def == trait_def
            && list_len(args) == list_len(params)
            && all_vars(args) {
            Ty::Nominal { def: *def, args: Box::new(dup_tys(params)) }
        } else {
            Ty::Nominal { def: *def, args: Box::new(rigid_self_tys(args, trait_def, params)) }
        },
        Ty::Ptr { mutable, inner } => {
            Ty::Ptr { mutable: *mutable, inner: Box::new(rigid_self_in(inner, trait_def, params)) }
        },
        Ty::Slice { mutable, inner } => {
            Ty::Slice { mutable: *mutable, inner: Box::new(rigid_self_in(inner, trait_def, params)) }
        },
        Ty::Array { len, mutable, inner } => Ty::Array {
            len: dup_const(len),
            mutable: *mutable,
            inner: Box::new(rigid_self_in(inner, trait_def, params)),
        },
        Ty::Tuple(elems) => Ty::Tuple(Box::new(rigid_self_tys(elems, trait_def, params))),
        Ty::Dyn { def, assoc } => {
            Ty::Dyn { def: *def, assoc: Box::new(rigid_self_named(assoc, trait_def, params)) }
        },
        Ty::Struct(fields) => Ty::Struct(Box::new(rigid_self_named(fields, trait_def, params))),
        Ty::Func { params: ps, ret, c } => Ty::Func {
            params: Box::new(rigid_self_tys(ps, trait_def, params)),
            ret: Box::new(rigid_self_in(ret, trait_def, params)),
            c: *c,
        },
        _ => dup_ty(ty),
    }
}

/// [`rigid_self_tys`], as a mathematical function.
pub open spec fn rigid_self_tys_spec(l: &List<Ty>, trait_def: DefId, params: &List<Ty>) -> List<Ty>
    decreases l,
{
    match l {
        List::Nil => List::Nil,
        List::Cons(h, t) => List::Cons(
            rigid_self_in_spec(h, trait_def, params),
            Box::new(rigid_self_tys_spec(t, trait_def, params)),
        ),
    }
}

/// The same over a list of types.
pub fn rigid_self_tys(l: &List<Ty>, trait_def: DefId, params: &List<Ty>) -> (r: List<Ty>)
    ensures
        r == rigid_self_tys_spec(l, trait_def, params),
    decreases l,
{
    match l {
        List::Nil => List::Nil,
        List::Cons(h, t) => List::Cons(
            rigid_self_in(h, trait_def, params),
            Box::new(rigid_self_tys(t, trait_def, params)),
        ),
    }
}

/// [`rigid_self_named`], as a mathematical function.
pub open spec fn rigid_self_named_spec(
    l: &List<(Symbol, Ty)>,
    trait_def: DefId,
    params: &List<Ty>,
) -> List<(Symbol, Ty)>
    decreases l,
{
    match l {
        List::Nil => List::Nil,
        List::Cons(h, t) => List::Cons(
            (h.0, rigid_self_in_spec(&h.1, trait_def, params)),
            Box::new(rigid_self_named_spec(t, trait_def, params)),
        ),
    }
}

/// The same over a list of named types.
pub fn rigid_self_named(
    l: &List<(Symbol, Ty)>,
    trait_def: DefId,
    params: &List<Ty>,
) -> (r: List<(Symbol, Ty)>)
    ensures
        r == rigid_self_named_spec(l, trait_def, params),
    decreases l,
{
    match l {
        List::Nil => List::Nil,
        List::Cons(h, t) => List::Cons(
            (dup_sym(&h.0), rigid_self_in(&h.1, trait_def, params)),
            Box::new(rigid_self_named(t, trait_def, params)),
        ),
    }
}

/// [`is_var`], as a mathematical function.
pub open spec fn is_var_spec(ty: &Ty) -> bool {
    match ty {
        Ty::Var(_) => true,
        _ => false,
    }
}

/// Whether a type is an unsolved variable.
pub fn is_var(ty: &Ty) -> (r: bool)
    ensures
        r == is_var_spec(ty),
{
    match ty {
        Ty::Var(_) => true,
        _ => false,
    }
}

/// [`is_error`], as a mathematical function.
pub open spec fn is_error_spec(ty: &Ty) -> bool {
    match ty {
        Ty::Error => true,
        _ => false,
    }
}

/// Whether a type is the error type.
pub fn is_error(ty: &Ty) -> (r: bool)
    ensures
        r == is_error_spec(ty),
{
    match ty {
        Ty::Error => true,
        _ => false,
    }
}

/// [`has_len`], as a mathematical function.
pub open spec fn has_len_spec(base: &Ty) -> bool {
    match base {
        Ty::Array { .. } => true,
        Ty::Slice { .. } => true,
        _ => false,
    }
}

/// Whether `len` has an answer for a type: an array or a slice carries its
/// element count, and nothing else does.
pub fn has_len(base: &Ty) -> (r: bool)
    ensures
        r == has_len_spec(base),
{
    match base {
        Ty::Array { .. } => true,
        Ty::Slice { .. } => true,
        _ => false,
    }
}

/// [`args_tuple`], as a mathematical function.
pub open spec fn args_tuple_spec(params: &List<Ty>) -> Ty {
    if crate::list::is_empty_spec(params) {
        Ty::Void
    } else {
        Ty::Tuple(Box::new((*params)))
    }
}

/// A call's arguments as the one type `Func` takes them as: nothing for none,
/// and a tuple of them otherwise, a tuple of one among them.
pub fn args_tuple(params: &List<Ty>) -> (r: Ty)
    ensures
        r == args_tuple_spec(params),
{
    if is_empty(params) {
        Ty::Void
    } else {
        Ty::Tuple(Box::new(dup_tys(params)))
    }
}

/// [`tuple_elems`], as a mathematical function.
pub open spec fn tuple_elems_spec(args: &Ty) -> List<Ty> {
    match args {
        Ty::Void => List::Nil,
        Ty::Tuple(elems) => (**elems),
        other => crate::list::single_spec((*other)),
    }
}

/// The arguments a `Func` bound's tuple lists.
pub fn tuple_elems(args: &Ty) -> (r: List<Ty>)
    ensures
        r == tuple_elems_spec(args),
{
    match args {
        Ty::Void => List::Nil,
        Ty::Tuple(elems) => dup_tys(&**elems),
        other => single(dup_ty(other)),
    }
}

/// Whether a type holds something of the given sort anywhere.
#[derive(Debug, Clone, Copy, PartialEq, Eq, Structural)]
pub enum Mention {
    Var,
    Error,
    ConstParam,
}

/// [`const_mentions`], as a mathematical function.
pub open spec fn const_mentions_spec(c: &Const, m: Mention) -> bool {
    match c {
        Const::Var(_) => m == Mention::Var,
        Const::Error => m == Mention::Error,
        Const::Param(_) => m == Mention::ConstParam,
        _ => false,
    }
}

/// Whether a compile-time value is of the given sort.
pub fn const_mentions(c: &Const, m: Mention) -> (r: bool)
    ensures
        r == const_mentions_spec(c, m),
{
    match c {
        Const::Var(_) => m == Mention::Var,
        Const::Error => m == Mention::Error,
        Const::Param(_) => m == Mention::ConstParam,
        _ => false,
    }
}

/// [`mentions`], as a mathematical function.
pub open spec fn mentions_spec(ty: &Ty, m: Mention) -> bool
    decreases ty,
{
    match ty {
        Ty::Var(_) => m == Mention::Var,
        Ty::Error => m == Mention::Error,
        Ty::Int { signed: _, width } => const_mentions_spec(width, m),
        Ty::Nominal { def: _, args } => any_mentions_spec(args, m),
        Ty::Ptr { mutable: _, inner } => mentions_spec(inner, m),
        Ty::Slice { mutable: _, inner } => mentions_spec(inner, m),
        Ty::Array { len, mutable: _, inner } => const_mentions_spec(len, m) || mentions_spec(inner, m),
        Ty::Tuple(elems) => any_mentions_spec(elems, m),
        Ty::Dyn { def: _, assoc } => any_named_mentions_spec(assoc, m),
        Ty::Struct(fields) => any_named_mentions_spec(fields, m),
        Ty::Func { params, ret, c: _ } => any_mentions_spec(params, m) || mentions_spec(ret, m),
        _ => false,
    }
}

/// Whether a type holds something of the given sort anywhere.
pub fn mentions(ty: &Ty, m: Mention) -> (r: bool)
    ensures
        r == mentions_spec(ty, m),
    decreases ty,
{
    match ty {
        Ty::Var(_) => m == Mention::Var,
        Ty::Error => m == Mention::Error,
        Ty::Int { signed: _, width } => const_mentions(width, m),
        Ty::Nominal { def: _, args } => any_mentions(args, m),
        Ty::Ptr { mutable: _, inner } => mentions(inner, m),
        Ty::Slice { mutable: _, inner } => mentions(inner, m),
        Ty::Array { len, mutable: _, inner } => const_mentions(len, m) || mentions(inner, m),
        Ty::Tuple(elems) => any_mentions(elems, m),
        Ty::Dyn { def: _, assoc } => any_named_mentions(assoc, m),
        Ty::Struct(fields) => any_named_mentions(fields, m),
        Ty::Func { params, ret, c: _ } => any_mentions(params, m) || mentions(ret, m),
        _ => false,
    }
}

/// [`any_mentions`], as a mathematical function.
pub open spec fn any_mentions_spec(l: &List<Ty>, m: Mention) -> bool
    decreases l,
{
    match l {
        List::Nil => false,
        List::Cons(h, t) => mentions_spec(h, m) || any_mentions_spec(t, m),
    }
}

/// Whether any type of a list does.
pub fn any_mentions(l: &List<Ty>, m: Mention) -> (r: bool)
    ensures
        r == any_mentions_spec(l, m),
    decreases l,
{
    match l {
        List::Nil => false,
        List::Cons(h, t) => mentions(h, m) || any_mentions(t, m),
    }
}

/// [`any_named_mentions`], as a mathematical function.
pub open spec fn any_named_mentions_spec(l: &List<(Symbol, Ty)>, m: Mention) -> bool
    decreases l,
{
    match l {
        List::Nil => false,
        List::Cons(h, t) => mentions_spec(&h.1, m) || any_named_mentions_spec(t, m),
    }
}

/// Whether any named type of a list does.
pub fn any_named_mentions(l: &List<(Symbol, Ty)>, m: Mention) -> (r: bool)
    ensures
        r == any_named_mentions_spec(l, m),
    decreases l,
{
    match l {
        List::Nil => false,
        List::Cons(h, t) => mentions(&h.1, m) || any_named_mentions(t, m),
    }
}

/// [`int_parts`], as a mathematical function.
pub open spec fn int_parts_spec(ty: &Ty) -> Option<(bool, u64)> {
    match ty {
        Ty::Int { signed, width } => match crate::ty::const_value_spec(width) {
            Some(n) => Some((*signed, n)),
            None => None,
        },
        _ => None,
    }
}

/// The signedness and width of an integer type whose width is known.
pub fn int_parts(ty: &Ty) -> (r: Option<(bool, u64)>)
    ensures
        r == int_parts_spec(ty),
{
    match ty {
        Ty::Int { signed, width } => match const_value(width) {
            Some(n) => Some((*signed, n)),
            None => None,
        },
        _ => None,
    }
}

/// [`int_widens`], as a mathematical function.
pub open spec fn int_widens_spec(from: (bool, u64), to: (bool, u64)) -> bool {
    from.1 < to.1 && (from.0 == to.0 || (!from.0 && to.0))
}

/// Whether every value of one integer type is a value of another, wider one.
pub fn int_widens(from: (bool, u64), to: (bool, u64)) -> (r: bool)
    ensures
        r == int_widens_spec(from, to),
        1 <= from.1
            && 1 <= to.1 ==> (r <==> from.1 < to.1 && forall|v: int| #[trigger] crate::laws::types::holds(from, v) ==> crate::laws::types::holds(to, v)),
{
    proof {
        if 1 <= from.1 && 1 <= to.1 { crate::laws::types::widening_keeps_every_value(from, to); }
    }
    from.1 < to.1 && (from.0 == to.0 || (!from.0 && to.0))
}

/// [`is_primitive`], as a mathematical function.
pub open spec fn is_primitive_spec(ty: &Ty) -> bool {
    match ty {
        Ty::Bool => true,
        Ty::Char => true,
        Ty::Int { .. } => true,
        Ty::Float(_) => true,
        _ => false,
    }
}

/// Whether a type is one a `const` parameter may have.
pub fn is_primitive(ty: &Ty) -> (r: bool)
    ensures
        r == is_primitive_spec(ty),
{
    match ty {
        Ty::Bool => true,
        Ty::Char => true,
        Ty::Int { .. } => true,
        Ty::Float(_) => true,
        _ => false,
    }
}

/// [`insert_named`], as a mathematical function.
pub open spec fn insert_named_spec(n: Symbol, ty: Ty, l: List<(Symbol, Ty)>) -> List<(Symbol, Ty)>
    decreases l,
{
    match l {
        List::Nil => List::Cons((n, ty), Box::new(List::Nil)),
        List::Cons(h, t) => if crate::symbol::text_before_spec(&h.0.text, &n.text) {
            List::Cons(h, Box::new(insert_named_spec(n, ty, *t)))
        } else {
            List::Cons((n, ty), Box::new(List::Cons(h, t)))
        },
    }
}

/// Put a named type in front of the first one whose name comes after its own.
pub fn insert_named(n: Symbol, ty: Ty, l: List<(Symbol, Ty)>) -> (r: List<(Symbol, Ty)>)
    ensures
        r == insert_named_spec(n, ty, l),
    decreases l,
{
    match l {
        List::Nil => List::Cons((n, ty), Box::new(List::Nil)),
        List::Cons(h, t) => if text_before(&h.0.text, &n.text) {
            List::Cons(h, Box::new(insert_named(n, ty, *t)))
        } else {
            List::Cons((n, ty), Box::new(List::Cons(h, t)))
        },
    }
}

/// [`sort_named`], as a mathematical function.
pub open spec fn sort_named_spec(l: List<(Symbol, Ty)>) -> List<(Symbol, Ty)>
    decreases l,
{
    match l {
        List::Nil => List::Nil,
        List::Cons(h, t) => insert_named_spec(h.0, h.1, sort_named_spec(*t)),
    }
}

/// Named types in dictionary order.
pub fn sort_named(l: List<(Symbol, Ty)>) -> (r: List<(Symbol, Ty)>)
    ensures
        r == sort_named_spec(l),
    decreases l,
{
    match l {
        List::Nil => List::Nil,
        List::Cons(h, t) => insert_named(h.0, h.1, sort_named(*t)),
    }
}

/// [`insert_by_name`], as a mathematical function.
pub open spec fn insert_by_name_spec(n: Symbol, d: DefId, l: List<(Symbol, DefId)>) -> List<(Symbol, DefId)>
    decreases l,
{
    match l {
        List::Nil => List::Cons((n, d), Box::new(List::Nil)),
        List::Cons(h, t) => if crate::symbol::text_before_spec(&h.0.text, &n.text) {
            List::Cons(h, Box::new(insert_by_name_spec(n, d, *t)))
        } else {
            List::Cons((n, d), Box::new(List::Cons(h, t)))
        },
    }
}

/// Put a member in front of the first one whose name comes after its own.
pub fn insert_by_name(n: Symbol, d: DefId, l: List<(Symbol, DefId)>) -> (r: List<(Symbol, DefId)>)
    ensures
        r == insert_by_name_spec(n, d, l),
    decreases l,
{
    match l {
        List::Nil => List::Cons((n, d), Box::new(List::Nil)),
        List::Cons(h, t) => if text_before(&h.0.text, &n.text) {
            List::Cons(h, Box::new(insert_by_name(n, d, *t)))
        } else {
            List::Cons((n, d), Box::new(List::Cons(h, t)))
        },
    }
}

/// [`sort_by_name`], as a mathematical function.
pub open spec fn sort_by_name_spec(l: List<(Symbol, DefId)>) -> List<(Symbol, DefId)>
    decreases l,
{
    match l {
        List::Nil => List::Nil,
        List::Cons(h, t) => insert_by_name_spec(h.0, h.1, sort_by_name_spec(*t)),
    }
}

/// Members in dictionary order.
pub fn sort_by_name(l: List<(Symbol, DefId)>) -> (r: List<(Symbol, DefId)>)
    ensures
        r == sort_by_name_spec(l),
        crate::laws::types::in_order(&r),
        r@.to_multiset() == l@.to_multiset(),
    decreases l,
{
    proof {
        crate::laws::types::sorting_puts_in_order(l); crate::laws::types::sorting_keeps_the_members(l);
    }
    match l {
        List::Nil => List::Nil,
        List::Cons(h, t) => insert_by_name(h.0, h.1, sort_by_name(*t)),
    }
}

/// [`digits_of`], as a mathematical function.
pub open spec fn digits_of_spec(t: &List<char>, acc: u64) -> Option<u64>
    decreases t,
{
    match t {
        List::Nil => Some(acc),
        List::Cons(c, rest) => match digit_of_spec(*c) {
            Some(d) => if acc <= 1_000_000_000_000_000_000 {
                digits_of_spec(rest, (acc * 10 + d) as u64)
            } else {
                None
            },
            None => None,
        },
    }
}

/// The decimal digits of a name, as a number, where it is nothing else.
pub fn digits_of(t: &List<char>, acc: u64) -> (r: Option<u64>)
    ensures
        r == digits_of_spec(t, acc),
    decreases t,
{
    match t {
        List::Nil => Some(acc),
        List::Cons(c, rest) => match digit_of(*c) {
            Some(d) => if acc <= 1_000_000_000_000_000_000 {
                digits_of(rest, (acc * 10 + d) as u64)
            } else {
                None
            },
            None => None,
        },
    }
}

/// [`digit_of`], as a mathematical function.
pub open spec fn digit_of_spec(c: char) -> Option<u64> {
    match c {
        '0' => Some(0),
        '1' => Some(1),
        '2' => Some(2),
        '3' => Some(3),
        '4' => Some(4),
        '5' => Some(5),
        '6' => Some(6),
        '7' => Some(7),
        '8' => Some(8),
        '9' => Some(9),
        _ => None,
    }
}

/// What a decimal digit is worth.
pub fn digit_of(c: char) -> (r: Option<u64>)
    ensures
        r == digit_of_spec(c),
{
    match c {
        '0' => Some(0),
        '1' => Some(1),
        '2' => Some(2),
        '3' => Some(3),
        '4' => Some(4),
        '5' => Some(5),
        '6' => Some(6),
        '7' => Some(7),
        '8' => Some(8),
        '9' => Some(9),
        _ => None,
    }
}

/// [`position_of`], as a mathematical function.
pub open spec fn position_of_spec(n: &Symbol) -> Option<u64> {
    match &n.text {
        List::Nil => None,
        List::Cons(_, _) => digits_of_spec(&n.text, 0),
    }
}

/// The position a name spells.
pub fn position_of(n: &Symbol) -> (r: Option<u64>)
    ensures
        r == position_of_spec(n),
{
    match &n.text {
        List::Nil => None,
        List::Cons(_, _) => digits_of(&n.text, 0),
    }
}

} // verus!
