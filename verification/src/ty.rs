//! Types, and the compile-time values that take part in them.

use vstd::prelude::*;

use crate::bigint::{digits_eq, dup_digits, dup_int, int_eq, Int};
use crate::ids::DefId;
use crate::ir::Param;
use crate::list::List;
use crate::symbol::{dup_sym, dup_text, sym_eq, text_eq, Symbol};

verus! {

/// The floating-point types.
#[derive(Debug, Clone, Copy, PartialEq, Eq, Structural)]
pub enum FloatWidth {
    F16,
    F32,
    F64,
    F80,
    F128,
}

/// A value known at compile time.
pub enum ConstValue {
    Int(Int),
    /// A double, by its bits.
    Float(u64),
    Bool(bool),
    Char(char),
    Str(List<char>),
    Bytes(List<u32>),
}

/// A compile-time value standing in a type: an array length, an integer width,
/// the argument of a `const` generic parameter.
pub enum Const {
    Error,
    /// A `const` generic parameter, still symbolic.
    Param(DefId),
    /// A value inference has not solved yet.
    Var(u32),
    /// A bare integer width.
    Width(u16),
    /// A known value, at the type it was written for.
    Value(Box<Ty>, ConstValue),
}

/// A type.
#[allow(inconsistent_fields)]
pub enum Ty {
    Error,
    Void,
    Never,
    Bool,
    Char,
    Opaque,
    /// What a bare numeric or string literal is before a use site settles it.
    ComptimeInt,
    ComptimeFloat,
    ComptimeStr,
    Int { signed: bool, width: Const },
    Float(FloatWidth),
    /// A type inference has not solved yet.
    Var(u32),
    Nominal { def: DefId, args: Box<List<Ty>> },
    Ptr { mutable: bool, inner: Box<Ty> },
    Slice { mutable: bool, inner: Box<Ty> },
    Array { len: Const, mutable: bool, inner: Box<Ty> },
    Tuple(Box<List<Ty>>),
    /// A trait object, with the associated types it pins, by name.
    Dyn { def: DefId, assoc: Box<List<(Symbol, Ty)>> },
    /// An anonymous struct: its fields are the type, ordered by name.
    Struct(Box<List<(Symbol, Ty)>>),
    /// A function pointer; `c` for one that follows C's convention.
    Func { params: Box<List<Ty>>, ret: Box<Ty>, c: bool },
}

/// A copy of a compile-time value.
pub fn dup_value(v: &ConstValue) -> (r: ConstValue)
    ensures
        r == *v,
{
    match v {
        ConstValue::Int(n) => ConstValue::Int(dup_int(n)),
        ConstValue::Float(b) => ConstValue::Float(*b),
        ConstValue::Bool(b) => ConstValue::Bool(*b),
        ConstValue::Char(c) => ConstValue::Char(*c),
        ConstValue::Str(t) => ConstValue::Str(dup_text(t)),
        ConstValue::Bytes(b) => ConstValue::Bytes(dup_digits(b)),
    }
}

/// A copy of a compile-time argument.
pub fn dup_const(c: &Const) -> (r: Const)
    ensures
        r == *c,
    decreases c,
{
    match c {
        Const::Error => Const::Error,
        Const::Param(d) => Const::Param(*d),
        Const::Var(v) => Const::Var(*v),
        Const::Width(w) => Const::Width(*w),
        Const::Value(t, v) => Const::Value(Box::new(dup_ty(t)), dup_value(v)),
    }
}

/// A copy of a type.
pub fn dup_ty(t: &Ty) -> (r: Ty)
    ensures
        r == *t,
    decreases t,
{
    match t {
        Ty::Error => Ty::Error,
        Ty::Void => Ty::Void,
        Ty::Never => Ty::Never,
        Ty::Bool => Ty::Bool,
        Ty::Char => Ty::Char,
        Ty::Opaque => Ty::Opaque,
        Ty::ComptimeInt => Ty::ComptimeInt,
        Ty::ComptimeFloat => Ty::ComptimeFloat,
        Ty::ComptimeStr => Ty::ComptimeStr,
        Ty::Int { signed, width } => Ty::Int { signed: *signed, width: dup_const(width) },
        Ty::Float(w) => Ty::Float(*w),
        Ty::Var(v) => Ty::Var(*v),
        Ty::Nominal { def, args } => Ty::Nominal { def: *def, args: Box::new(dup_tys(args)) },
        Ty::Ptr { mutable, inner } => Ty::Ptr { mutable: *mutable, inner: Box::new(dup_ty(inner)) },
        Ty::Slice { mutable, inner } => Ty::Slice { mutable: *mutable, inner: Box::new(dup_ty(inner)) },
        Ty::Array { len, mutable, inner } => Ty::Array {
            len: dup_const(len),
            mutable: *mutable,
            inner: Box::new(dup_ty(inner)),
        },
        Ty::Tuple(elems) => Ty::Tuple(Box::new(dup_tys(elems))),
        Ty::Dyn { def, assoc } => Ty::Dyn { def: *def, assoc: Box::new(dup_named_tys(assoc)) },
        Ty::Struct(fields) => Ty::Struct(Box::new(dup_named_tys(fields))),
        Ty::Func { params, ret, c } => Ty::Func {
            params: Box::new(dup_tys(params)),
            ret: Box::new(dup_ty(ret)),
            c: *c,
        },
    }
}

/// A copy of a list of types.
pub fn dup_tys(l: &List<Ty>) -> (r: List<Ty>)
    ensures
        r == *l,
    decreases l,
{
    match l {
        List::Nil => List::Nil,
        List::Cons(h, t) => List::Cons(dup_ty(h), Box::new(dup_tys(t))),
    }
}

/// A copy of a list of named types.
pub fn dup_named_tys(l: &List<(Symbol, Ty)>) -> (r: List<(Symbol, Ty)>)
    ensures
        r == *l,
    decreases l,
{
    match l {
        List::Nil => List::Nil,
        List::Cons(h, t) => {
            let (n, ty) = h;
            List::Cons((dup_sym(n), dup_ty(ty)), Box::new(dup_named_tys(t)))
        },
    }
}

/// [`value_eq`], as a mathematical function.
pub open spec fn value_eq_spec(a: &ConstValue, b: &ConstValue) -> bool {
    *a == *b
}

/// Whether two compile-time values are the same.
pub fn value_eq(a: &ConstValue, b: &ConstValue) -> (r: bool)
    ensures
        r == value_eq_spec(a, b),
{
    match (a, b) {
        (ConstValue::Int(x), ConstValue::Int(y)) => int_eq(x, y),
        (ConstValue::Float(x), ConstValue::Float(y)) => *x == *y,
        (ConstValue::Bool(x), ConstValue::Bool(y)) => *x == *y,
        (ConstValue::Char(x), ConstValue::Char(y)) => *x == *y,
        (ConstValue::Str(x), ConstValue::Str(y)) => text_eq(x, y),
        (ConstValue::Bytes(x), ConstValue::Bytes(y)) => digits_eq(x, y),
        _ => false,
    }
}

/// [`const_eq`], as a mathematical function.
pub open spec fn const_eq_spec(a: &Const, b: &Const) -> bool {
    *a == *b
}

/// Whether two compile-time arguments are the same.
pub fn const_eq(a: &Const, b: &Const) -> (r: bool)
    ensures
        r == const_eq_spec(a, b),
    decreases a,
{
    match (a, b) {
        (Const::Error, Const::Error) => true,
        (Const::Param(x), Const::Param(y)) => *x == *y,
        (Const::Var(x), Const::Var(y)) => *x == *y,
        (Const::Width(x), Const::Width(y)) => *x == *y,
        (Const::Value(t, v), Const::Value(u, w)) => ty_eq(t, u) && value_eq(v, w),
        _ => false,
    }
}

/// [`ty_eq`], as a mathematical function.
pub open spec fn ty_eq_spec(a: &Ty, b: &Ty) -> bool {
    *a == *b
}

/// Whether two types are the same.
pub fn ty_eq(a: &Ty, b: &Ty) -> (r: bool)
    ensures
        r == ty_eq_spec(a, b),
    decreases a,
{
    match (a, b) {
        (Ty::Error, Ty::Error) => true,
        (Ty::Void, Ty::Void) => true,
        (Ty::Never, Ty::Never) => true,
        (Ty::Bool, Ty::Bool) => true,
        (Ty::Char, Ty::Char) => true,
        (Ty::Opaque, Ty::Opaque) => true,
        (Ty::ComptimeInt, Ty::ComptimeInt) => true,
        (Ty::ComptimeFloat, Ty::ComptimeFloat) => true,
        (Ty::ComptimeStr, Ty::ComptimeStr) => true,
        (Ty::Int { signed: s, width: w }, Ty::Int { signed: t, width: x }) => *s == *t && const_eq(w, x),
        (Ty::Float(x), Ty::Float(y)) => *x == *y,
        (Ty::Var(x), Ty::Var(y)) => *x == *y,
        (Ty::Nominal { def: d, args: x }, Ty::Nominal { def: e, args: y }) => *d == *e && tys_eq(x, y),
        (Ty::Ptr { mutable: m, inner: x }, Ty::Ptr { mutable: n, inner: y }) => *m == *n && ty_eq(x, y),
        (Ty::Slice { mutable: m, inner: x }, Ty::Slice { mutable: n, inner: y }) => *m == *n && ty_eq(x, y),
        (Ty::Array { len: k, mutable: m, inner: x }, Ty::Array { len: l, mutable: n, inner: y }) => {
            const_eq(k, l) && *m == *n && ty_eq(x, y)
        },
        (Ty::Tuple(x), Ty::Tuple(y)) => tys_eq(x, y),
        (Ty::Dyn { def: d, assoc: x }, Ty::Dyn { def: e, assoc: y }) => *d == *e && named_tys_eq(x, y),
        (Ty::Struct(x), Ty::Struct(y)) => named_tys_eq(x, y),
        (Ty::Func { params: p, ret: r, c: c }, Ty::Func { params: q, ret: s, c: d }) => {
            tys_eq(p, q) && ty_eq(r, s) && *c == *d
        },
        _ => false,
    }
}

/// [`tys_eq`], as a mathematical function.
pub open spec fn tys_eq_spec(a: &List<Ty>, b: &List<Ty>) -> bool {
    *a == *b
}

/// Whether two lists of types are the same.
pub fn tys_eq(a: &List<Ty>, b: &List<Ty>) -> (r: bool)
    ensures
        r == tys_eq_spec(a, b),
    decreases a,
{
    match (a, b) {
        (List::Nil, List::Nil) => true,
        (List::Cons(x, s), List::Cons(y, t)) => ty_eq(x, y) && tys_eq(s, t),
        _ => false,
    }
}

/// [`named_tys_eq`], as a mathematical function.
pub open spec fn named_tys_eq_spec(a: &List<(Symbol, Ty)>, b: &List<(Symbol, Ty)>) -> bool {
    *a == *b
}

/// Whether two lists of named types are the same.
pub fn named_tys_eq(a: &List<(Symbol, Ty)>, b: &List<(Symbol, Ty)>) -> (r: bool)
    ensures
        r == named_tys_eq_spec(a, b),
    decreases a,
{
    match (a, b) {
        (List::Nil, List::Nil) => true,
        (List::Cons(x, s), List::Cons(y, t)) => {
            let (n, ty) = x;
            let (m, u) = y;
            sym_eq(n, m) && ty_eq(ty, u) && named_tys_eq(s, t)
        },
        _ => false,
    }
}

/// [`int_ty`], as a mathematical function.
pub open spec fn int_ty_spec(bits: u16, signed: bool) -> Ty {
    Ty::Int { signed: signed, width: Const::Width(bits) }
}

/// A machine integer type.
pub fn int_ty(bits: u16, signed: bool) -> (r: Ty)
    ensures
        r == int_ty_spec(bits, signed),
{
    Ty::Int { signed: signed, width: Const::Width(bits) }
}

/// [`nominal`], as a mathematical function.
pub open spec fn nominal_spec(def: DefId) -> Ty {
    Ty::Nominal { def: def, args: Box::new(List::Nil) }
}

/// The type a definition names, over nothing.
pub fn nominal(def: DefId) -> (r: Ty)
    ensures
        r == nominal_spec(def),
{
    Ty::Nominal { def: def, args: Box::new(List::Nil) }
}

/// [`nominals`], as a mathematical function.
pub open spec fn nominals_spec(defs: &List<DefId>) -> List<Ty>
    decreases defs,
{
    match defs {
        List::Nil => List::Nil,
        List::Cons(h, t) => List::Cons(nominal_spec(*h), Box::new(nominals_spec(t))),
    }
}

/// The types a list of definitions name, each over nothing.
pub fn nominals(defs: &List<DefId>) -> (r: List<Ty>)
    ensures
        r == nominals_spec(defs),
    decreases defs,
{
    match defs {
        List::Nil => List::Nil,
        List::Cons(h, t) => List::Cons(nominal(*h), Box::new(nominals(t))),
    }
}

/// [`is_int`], as a mathematical function.
pub open spec fn is_int_spec(ty: &Ty) -> bool {
    match ty {
        Ty::Int { .. } => true,
        _ => false,
    }
}

/// Whether a type is an integer.
pub fn is_int(ty: &Ty) -> (r: bool)
    ensures
        r == is_int_spec(ty),
{
    match ty {
        Ty::Int { .. } => true,
        _ => false,
    }
}

/// [`is_float`], as a mathematical function.
pub open spec fn is_float_spec(ty: &Ty) -> bool {
    match ty {
        Ty::Float(_) => true,
        _ => false,
    }
}

/// Whether a type is a float.
pub fn is_float(ty: &Ty) -> (r: bool)
    ensures
        r == is_float_spec(ty),
{
    match ty {
        Ty::Float(_) => true,
        _ => false,
    }
}

/// [`small_int`], as a mathematical function.
pub open spec fn small_int_spec(n: &Int) -> Option<u64> {
    match &n.digits {
        List::Nil => Some(0),
        List::Cons(lo, t) => if n.negative {
            None
        } else {
            match &**t {
                List::Nil => Some(*lo as u64),
                List::Cons(hi, u) => match &**u {
                    List::Nil => Some((*hi as u64 * 0x1_0000_0000u64 + *lo as u64) as u64),
                    List::Cons(_, _) => None,
                },
            }
        },
    }
}

/// A known non-negative integer as a machine word.
pub fn small_int(n: &Int) -> (r: Option<u64>)
    ensures
        r == small_int_spec(n),
{
    match &n.digits {
        List::Nil => Some(0),
        List::Cons(lo, t) => if n.negative {
            None
        } else {
            match &**t {
                List::Nil => Some(*lo as u64),
                List::Cons(hi, u) => match &**u {
                    List::Nil => Some((*hi as u64 * 0x1_0000_0000u64 + *lo as u64) as u64),
                    List::Cons(_, _) => None,
                },
            }
        },
    }
}

/// [`const_value`], as a mathematical function.
pub open spec fn const_value_spec(c: &Const) -> Option<u64> {
    match c {
        Const::Width(w) => Some(*w as u64),
        Const::Value(_, v) => match v {
            ConstValue::Int(n) => small_int_spec(n),
            _ => None,
        },
        _ => None,
    }
}

/// What a compile-time argument is worth, if that is a machine word.
pub fn const_value(c: &Const) -> (r: Option<u64>)
    ensures
        r == const_value_spec(c),
{
    match c {
        Const::Width(w) => Some(*w as u64),
        Const::Value(_, v) => match v {
            ConstValue::Int(n) => small_int(n),
            _ => None,
        },
        _ => None,
    }
}

/// [`find_named`], as a mathematical function.
pub open spec fn find_named_spec<'a>(l: &'a List<(Symbol, Ty)>, name: &Symbol) -> Option<&'a Ty>
    decreases l,
{
    match l {
        List::Nil => None,
        List::Cons(h, t) => if crate::symbol::sym_eq_spec(&h.0, name) {
            Some(&h.1)
        } else {
            find_named_spec(t, name)
        },
    }
}

/// Where a name stands in a list of named types.
pub fn find_named<'a>(l: &'a List<(Symbol, Ty)>, name: &Symbol) -> (r: Option<&'a Ty>)
    ensures
        r == find_named_spec(l, name),
    decreases l,
{
    match l {
        List::Nil => None,
        List::Cons(h, t) => if sym_eq(&h.0, name) {
            Some(&h.1)
        } else {
            find_named(t, name)
        },
    }
}

} // verus!
