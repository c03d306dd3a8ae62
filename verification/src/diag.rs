//! What the passes say about a program: messages built of parts that are only
//! turned into text when somebody reads them.

use vstd::prelude::*;

use crate::bigint::{dup_int, Int};
use crate::def::DefKind;
use crate::ids::{DefId, FileId, Span};
use crate::list::{append, is_empty, list3, single, List};
use crate::symbol::{dup_sym, dup_text, Symbol, Text};
use crate::ty::{dup_const, dup_ty, dup_value, Const, ConstValue, Ty};

verus! {

/// A piece of a message.
pub enum Part {
    Text(&'static str),
    Name(Symbol),
    Ty(Ty),
    /// A member's type, as the signature it was written as.
    Signature(Ty),
    /// A definition, by the path it is known by.
    Path(DefId),
    Num(u64),
    Tag(i128),
    Int(Int),
    /// A double, by its bits.
    Float(u64),
    Value(ConstValue),
    Const(Const),
    Chars(List<char>),
    /// That a closure cannot name a `const` generic parameter.
    ClosureNamesConst,
}

/// One complaint: where, what, and an afterthought.
pub struct Diagnostic {
    pub file: FileId,
    pub span: Span,
    pub message: List<Part>,
    pub note: Option<List<Part>>,
}

/// A copy of a piece of a message.
pub fn dup_part(p: &Part) -> (r: Part)
    ensures
        r == *p,
{
    match p {
        Part::Text(s) => Part::Text(s),
        Part::Name(n) => Part::Name(dup_sym(n)),
        Part::Ty(t) => Part::Ty(dup_ty(t)),
        Part::Signature(t) => Part::Signature(dup_ty(t)),
        Part::Path(d) => Part::Path(*d),
        Part::Num(n) => Part::Num(*n),
        Part::Tag(n) => Part::Tag(*n),
        Part::Int(n) => Part::Int(dup_int(n)),
        Part::Float(b) => Part::Float(*b),
        Part::Value(v) => Part::Value(dup_value(v)),
        Part::Const(c) => Part::Const(dup_const(c)),
        Part::Chars(t) => Part::Chars(dup_text(t)),
        Part::ClosureNamesConst => Part::ClosureNamesConst,
    }
}

/// [`kind_label`], as a mathematical function.
pub open spec fn kind_label_spec(k: DefKind) -> &'static str {
    match k {
        DefKind::Namespace => "namespace",
        DefKind::Struct => "struct",
        DefKind::Enum => "enum",
        DefKind::Variant => "variant",
        DefKind::Field => "field",
        DefKind::Trait => "trait",
        DefKind::TypeAlias => "type alias",
        DefKind::Const => "constant",
        DefKind::Func => "function",
        DefKind::Overload => "overload set",
        DefKind::Closure => "closure",
        DefKind::Local => "local",
        DefKind::Param => "parameter",
        DefKind::TypeParam => "type parameter",
        DefKind::ConstParam => "const parameter",
        DefKind::Primitive => "primitive type",
        DefKind::External => "external item",
    }
}

/// What a kind of definition is called.
pub fn kind_label(k: DefKind) -> (r: &'static str)
    ensures
        r == kind_label_spec(k),
{
    match k {
        DefKind::Namespace => "namespace",
        DefKind::Struct => "struct",
        DefKind::Enum => "enum",
        DefKind::Variant => "variant",
        DefKind::Field => "field",
        DefKind::Trait => "trait",
        DefKind::TypeAlias => "type alias",
        DefKind::Const => "constant",
        DefKind::Func => "function",
        DefKind::Overload => "overload set",
        DefKind::Closure => "closure",
        DefKind::Local => "local",
        DefKind::Param => "parameter",
        DefKind::TypeParam => "type parameter",
        DefKind::ConstParam => "const parameter",
        DefKind::Primitive => "primitive type",
        DefKind::External => "external item",
    }
}

/// [`say`], as a mathematical function.
pub open spec fn say_spec(s: &'static str) -> List<Part> {
    crate::list::single_spec(Part::Text(s))
}

/// A message of one piece of text.
pub fn say(s: &'static str) -> (r: List<Part>)
    ensures
        r == say_spec(s),
{
    single(Part::Text(s))
}

/// [`say_name`], as a mathematical function.
pub open spec fn say_name_spec(a: &'static str, n: &Symbol, b: &'static str) -> List<Part> {
    crate::list::list3_spec(Part::Text(a), Part::Name((*n)), Part::Text(b))
}

/// Text, a name, and text.
pub fn say_name(a: &'static str, n: &Symbol, b: &'static str) -> (r: List<Part>)
    ensures
        r == say_name_spec(a, n, b),
{
    list3(Part::Text(a), Part::Name(dup_sym(n)), Part::Text(b))
}

/// [`say_ty`], as a mathematical function.
pub open spec fn say_ty_spec(a: &'static str, t: Ty, b: &'static str) -> List<Part> {
    crate::list::list3_spec(Part::Text(a), Part::Ty(t), Part::Text(b))
}

/// Text, a type, and text.
pub fn say_ty(a: &'static str, t: Ty, b: &'static str) -> (r: List<Part>)
    ensures
        r == say_ty_spec(a, t, b),
{
    list3(Part::Text(a), Part::Ty(t), Part::Text(b))
}

/// [`quoted_names`], as a mathematical function.
pub open spec fn quoted_names_spec(l: &List<Symbol>) -> List<Part>
    decreases l,
{
    match l {
        List::Nil => List::Nil,
        List::Cons(h, t) => if crate::list::is_empty_spec(t) {
            say_name_spec("`", h, "`")
        } else {
            crate::list::append_spec(say_name_spec("`", h, "`, "), quoted_names_spec(t))
        },
    }
}

/// A list of names, each in backticks, with commas between them.
pub fn quoted_names(l: &List<Symbol>) -> (r: List<Part>)
    ensures
        r == quoted_names_spec(l),
    decreases l,
{
    match l {
        List::Nil => List::Nil,
        List::Cons(h, t) => if is_empty(t) {
            say_name("`", h, "`")
        } else {
            append(say_name("`", h, "`, "), quoted_names(t))
        },
    }
}

/// [`names_closure_const`], as a mathematical function.
pub open spec fn names_closure_const_spec(m: &List<Part>) -> bool {
    match m {
        List::Cons(Part::ClosureNamesConst, t) => crate::list::is_empty_spec(t),
        _ => false,
    }
}

/// Whether a message says that a closure cannot name a `const` parameter.
pub fn names_closure_const(m: &List<Part>) -> (r: bool)
    ensures
        r == names_closure_const_spec(m),
{
    match m {
        List::Cons(Part::ClosureNamesConst, t) => is_empty(t),
        _ => false,
    }
}

} // verus!
