//! Messages as text.

use num_bigint::{BigInt, Sign};
use vstd::prelude::*;

use crate::bigint::{dup_digits, Int};
use crate::def::{get_def, Tables};
use crate::diag::Part;
use crate::ids::DefId;
use crate::list::{append, is_empty, single, vec_of, List};
use crate::symbol::{decimal, digit_char, dup_text, text_of, Symbol, Text};
use crate::ty::{const_value, Const, ConstValue, FloatWidth, Ty};

verus! {

/// A piece of a rendered message: text, or a double that is still to be written
/// out.
pub enum Piece {
    Text(List<char>),
    /// A double, by its bits.
    Float(u64),
}

// Numbers.

/// A natural number in decimal.
pub open spec fn number_text(n: nat) -> Seq<char>
    decreases n,
{
    if n < 10 {
        seq![crate::symbol::digit_char_spec(n as u64)]
    } else {
        number_text(n / 10).push(crate::symbol::digit_char_spec((n % 10) as u64))
    }
}

/// An integer in decimal.
pub open spec fn value_text(v: int) -> Seq<char> {
    if v < 0 { seq!['-'] + number_text((-v) as nat) } else { number_text(v as nat) }
}

/// Writes a `BigInt` out with `num_bigint`'s `Display`. The contract claims that
/// the text is the integer in decimal, with a minus sign in front of a negative
/// one and no leading zero.
#[verifier::external_body]
fn big_to_text(negative: bool, digits: &Vec<u32>) -> (r: String)
    ensures
        r@ == value_text(crate::bigint::signed_value(negative, digits@)),
{
    BigInt::from_slice(if negative { Sign::Minus } else { Sign::Plus }, digits).to_string()
}

/// [`int_text`], as a mathematical function.
pub open spec fn int_text_spec(x: &Int) -> List<char> {
    crate::symbol::text_of_seq(value_text(x.value()))
}

/// An integer in decimal.
pub fn int_text(x: &Int) -> (r: List<char>)
    ensures
        r == int_text_spec(x),
{
    let d = vec_of(dup_digits(&x.digits));
    let s = big_to_text(x.negative, &d);
    text_of(s.as_str())
}

/// [`wide_decimal`], as a mathematical function.
pub open spec fn wide_decimal_spec(n: u128) -> List<char>
    decreases n,
{
    if n < 10 {
        crate::list::single_spec(crate::symbol::digit_char_spec(n as u64))
    } else {
        crate::list::append_spec(
            wide_decimal_spec((n / 10) as u128),
            crate::list::single_spec(crate::symbol::digit_char_spec((n % 10) as u64)),
        )
    }
}

/// A wide number in decimal.
pub fn wide_decimal(n: u128) -> (r: List<char>)
    ensures
        r == wide_decimal_spec(n),
    decreases n,
{
    if n < 10 {
        single(digit_char(n as u64))
    } else {
        append(wide_decimal((n / 10) as u128), single(digit_char((n % 10) as u64)))
    }
}

/// [`tag_text`], as a mathematical function.
pub open spec fn tag_text_spec(n: i128) -> List<char> {
    if n < 0 {
        List::Cons('-', Box::new(wide_decimal_spec(((0 - (n + 1)) as u128 + 1u128) as u128)))
    } else {
        wide_decimal_spec(n as u128)
    }
}

/// A tag in decimal.
pub fn tag_text(n: i128) -> (r: List<char>)
    ensures
        r == tag_text_spec(n),
{
    if n < 0 {
        List::Cons('-', Box::new(wide_decimal(((0 - (n + 1)) as u128 + 1u128) as u128)))
    } else {
        wide_decimal(n as u128)
    }
}

// Pieces.

/// [`word`], as a mathematical function.
pub open spec fn word_spec(s: &'static str) -> List<Piece> {
    crate::list::single_spec(Piece::Text(crate::symbol::text_of_spec(s)))
}

/// One piece of fixed text.
pub fn word(s: &'static str) -> (r: List<Piece>)
    ensures
        r == word_spec(s),
{
    single(Piece::Text(text_of(s)))
}

/// [`chars`], as a mathematical function.
pub open spec fn chars_spec(t: List<char>) -> List<Piece> {
    crate::list::single_spec(Piece::Text(t))
}

/// One piece of text.
pub fn chars(t: List<char>) -> (r: List<Piece>)
    ensures
        r == chars_spec(t),
{
    single(Piece::Text(t))
}

/// [`path_text`], as a mathematical function.
pub open spec fn path_text_spec(t: &Tables, d: DefId) -> List<char> {
    match crate::def::get_def_spec(t, d) {
        Some(def) => def.path.text,
        None => crate::symbol::text_of_spec("?"),
    }
}

/// What a definition is known by.
pub fn path_text(t: &Tables, d: DefId) -> (r: List<char>)
    ensures
        r == path_text_spec(t, d),
{
    match get_def(t, d) {
        Some(def) => dup_text(&def.path.text),
        None => text_of("?"),
    }
}

/// [`name_text`], as a mathematical function.
pub open spec fn name_text_spec(t: &Tables, d: DefId) -> List<char> {
    match crate::def::get_def_spec(t, d) {
        Some(def) => def.name.text,
        None => crate::symbol::text_of_spec("?"),
    }
}

/// What a definition is called.
pub fn name_text(t: &Tables, d: DefId) -> (r: List<char>)
    ensures
        r == name_text_spec(t, d),
{
    match get_def(t, d) {
        Some(def) => dup_text(&def.name.text),
        None => text_of("?"),
    }
}

/// [`enclosed`], as a mathematical function.
pub open spec fn enclosed_spec(open: &'static str, a: List<Piece>, close: &'static str) -> List<Piece> {
    crate::list::append_spec(word_spec(open), crate::list::append_spec(a, word_spec(close)))
}

/// `a` inside a pair of delimiters.
pub fn enclosed(open: &'static str, a: List<Piece>, close: &'static str) -> (r: List<Piece>)
    ensures
        r == enclosed_spec(open, a, close),
{
    append(word(open), append(a, word(close)))
}

// Values and types.

/// [`value_pieces`], as a mathematical function.
pub open spec fn value_pieces_spec(v: &ConstValue) -> List<Piece> {
    match v {
        ConstValue::Int(n) => chars_spec(int_text_spec(n)),
        ConstValue::Float(b) => crate::list::single_spec(Piece::Float(*b)),
        ConstValue::Bool(b) => if *b {
            word_spec("true")
        } else {
            word_spec("false")
        },
        ConstValue::Char(c) => enclosed_spec("'", chars_spec(crate::list::single_spec(*c)), "'"),
        ConstValue::Str(s) => enclosed_spec("\"", chars_spec((*s)), "\""),
        ConstValue::Bytes(_) => word_spec("c\"..\""),
    }
}

/// A compile-time value.
pub fn value_pieces(v: &ConstValue) -> (r: List<Piece>)
    ensures
        r == value_pieces_spec(v),
{
    match v {
        ConstValue::Int(n) => chars(int_text(n)),
        ConstValue::Float(b) => single(Piece::Float(*b)),
        ConstValue::Bool(b) => if *b {
            word("true")
        } else {
            word("false")
        },
        ConstValue::Char(c) => enclosed("'", chars(single(*c)), "'"),
        ConstValue::Str(s) => enclosed("\"", chars(dup_text(s)), "\""),
        ConstValue::Bytes(_) => word("c\"..\""),
    }
}

/// [`const_pieces`], as a mathematical function.
pub open spec fn const_pieces_spec(t: &Tables, c: &Const) -> List<Piece> {
    match c {
        Const::Error => word_spec("_"),
        Const::Param(d) => chars_spec(name_text_spec(t, *d)),
        Const::Var(v) => crate::list::append_spec(
            word_spec("?c"),
            chars_spec(crate::symbol::decimal_spec(*v as u64)),
        ),
        Const::Width(w) => chars_spec(crate::symbol::decimal_spec(*w as u64)),
        Const::Value(_, v) => value_pieces_spec(v),
    }
}

/// A compile-time value standing in a type.
pub fn const_pieces(t: &Tables, c: &Const) -> (r: List<Piece>)
    ensures
        r == const_pieces_spec(t, c),
{
    match c {
        Const::Error => word("_"),
        Const::Param(d) => chars(name_text(t, *d)),
        Const::Var(v) => append(word("?c"), chars(decimal(*v as u64))),
        Const::Width(w) => chars(decimal(*w as u64)),
        Const::Value(_, v) => value_pieces(v),
    }
}

/// [`int_pieces`], as a mathematical function.
pub open spec fn int_pieces_spec(t: &Tables, signed: bool, width: &Const) -> List<Piece> {
    match crate::ty::const_value_spec(width) {
        Some(w) => crate::list::append_spec(
            if signed { word_spec("i") } else { word_spec("u") },
            chars_spec(crate::symbol::decimal_spec(w)),
        ),
        None => crate::list::append_spec(
            if signed { word_spec("int.<") } else { word_spec("uint.<") },
            crate::list::append_spec(const_pieces_spec(t, width), word_spec(">")),
        ),
    }
}

/// An integer type: by its short name where its width is known.
pub fn int_pieces(t: &Tables, signed: bool, width: &Const) -> (r: List<Piece>)
    ensures
        r == int_pieces_spec(t, signed, width),
{
    match const_value(width) {
        Some(w) => append(if signed { word("i") } else { word("u") }, chars(decimal(w))),
        None => append(
            if signed { word("int.<") } else { word("uint.<") },
            append(const_pieces(t, width), word(">")),
        ),
    }
}

/// [`float_name`], as a mathematical function.
pub open spec fn float_name_spec(w: FloatWidth) -> &'static str {
    match w {
        FloatWidth::F16 => "f16",
        FloatWidth::F32 => "f32",
        FloatWidth::F64 => "f64",
        FloatWidth::F80 => "f80",
        FloatWidth::F128 => "f128",
    }
}

/// What a floating-point type is called.
pub fn float_name(w: FloatWidth) -> (r: &'static str)
    ensures
        r == float_name_spec(w),
{
    match w {
        FloatWidth::F16 => "f16",
        FloatWidth::F32 => "f32",
        FloatWidth::F64 => "f64",
        FloatWidth::F80 => "f80",
        FloatWidth::F128 => "f128",
    }
}

/// [`ty_pieces`], as a mathematical function.
pub open spec fn ty_pieces_spec(t: &Tables, ty: &Ty) -> List<Piece>
    decreases ty,
{
    match ty {
        Ty::Error => word_spec("{error}"),
        Ty::Void => word_spec("void"),
        Ty::Never => word_spec("never"),
        Ty::Bool => word_spec("bool"),
        Ty::Char => word_spec("char"),
        Ty::Opaque => word_spec("opaque"),
        Ty::ComptimeInt => word_spec("comptime_int"),
        Ty::ComptimeFloat => word_spec("comptime_float"),
        Ty::ComptimeStr => word_spec("comptime_str"),
        Ty::Int { signed, width } => int_pieces_spec(t, *signed, width),
        Ty::Float(w) => word_spec(float_name_spec(*w)),
        Ty::Var(v) => crate::list::append_spec(
            word_spec("?"),
            chars_spec(crate::symbol::decimal_spec(*v as u64)),
        ),
        Ty::Nominal { def, args } => if crate::list::is_empty_spec(args) {
            chars_spec(name_text_spec(t, *def))
        } else {
            crate::list::append_spec(
                chars_spec(name_text_spec(t, *def)),
                enclosed_spec(".<", tys_pieces_spec(t, args), ">"),
            )
        },
        Ty::Ptr { mutable, inner } => crate::list::append_spec(
            if *mutable { word_spec("*mut ") } else { word_spec("*") },
            ty_pieces_spec(t, inner),
        ),
        Ty::Slice { mutable, inner } => crate::list::append_spec(
            if *mutable { word_spec("[]mut ") } else { word_spec("[]") },
            ty_pieces_spec(t, inner),
        ),
        Ty::Array { len, mutable, inner } => crate::list::append_spec(
            enclosed_spec("[", const_pieces_spec(t, len), if *mutable { "]mut " } else { "]" }),
            ty_pieces_spec(t, inner),
        ),
        Ty::Tuple(elems) => enclosed_spec("(", tys_pieces_spec(t, elems), ")"),
        Ty::Dyn { def, assoc } => crate::list::append_spec(
            word_spec("dyn "),
            crate::list::append_spec(
                chars_spec(name_text_spec(t, *def)),
                if crate::list::is_empty_spec(assoc) { List::Nil } else { enclosed_spec(
                    ".<",
                    named_pieces_spec(t, assoc, " = "),
                    ">",
                ) },
            ),
        ),
        Ty::Struct(fields) => enclosed_spec("struct { ", named_pieces_spec(t, fields, ": "), " }"),
        Ty::Func { params, ret, c } => crate::list::append_spec(
            if *c { word_spec("*c func(") } else { word_spec("*func(") },
            crate::list::append_spec(
                tys_pieces_spec(t, params),
                crate::list::append_spec(word_spec(") -> "), ty_pieces_spec(t, ret)),
            ),
        ),
    }
}

/// A type.
pub fn ty_pieces(t: &Tables, ty: &Ty) -> (r: List<Piece>)
    ensures
        r == ty_pieces_spec(t, ty),
    decreases ty,
{
    match ty {
        Ty::Error => word("{error}"),
        Ty::Void => word("void"),
        Ty::Never => word("never"),
        Ty::Bool => word("bool"),
        Ty::Char => word("char"),
        Ty::Opaque => word("opaque"),
        Ty::ComptimeInt => word("comptime_int"),
        Ty::ComptimeFloat => word("comptime_float"),
        Ty::ComptimeStr => word("comptime_str"),
        Ty::Int { signed, width } => int_pieces(t, *signed, width),
        Ty::Float(w) => word(float_name(*w)),
        Ty::Var(v) => append(word("?"), chars(decimal(*v as u64))),
        Ty::Nominal { def, args } => if is_empty(args) {
            chars(name_text(t, *def))
        } else {
            append(chars(name_text(t, *def)), enclosed(".<", tys_pieces(t, args), ">"))
        },
        Ty::Ptr { mutable, inner } => append(
            if *mutable { word("*mut ") } else { word("*") },
            ty_pieces(t, inner),
        ),
        Ty::Slice { mutable, inner } => append(
            if *mutable { word("[]mut ") } else { word("[]") },
            ty_pieces(t, inner),
        ),
        Ty::Array { len, mutable, inner } => append(
            enclosed("[", const_pieces(t, len), if *mutable { "]mut " } else { "]" }),
            ty_pieces(t, inner),
        ),
        Ty::Tuple(elems) => enclosed("(", tys_pieces(t, elems), ")"),
        Ty::Dyn { def, assoc } => append(
            word("dyn "),
            append(
                chars(name_text(t, *def)),
                if is_empty(assoc) { List::Nil } else { enclosed(".<", named_pieces(t, assoc, " = "), ">") },
            ),
        ),
        Ty::Struct(fields) => enclosed("struct { ", named_pieces(t, fields, ": "), " }"),
        Ty::Func { params, ret, c } => append(
            if *c { word("*c func(") } else { word("*func(") },
            append(tys_pieces(t, params), append(word(") -> "), ty_pieces(t, ret))),
        ),
    }
}

/// [`tys_pieces`], as a mathematical function.
pub open spec fn tys_pieces_spec(t: &Tables, l: &List<Ty>) -> List<Piece>
    decreases l,
{
    match l {
        List::Nil => List::Nil,
        List::Cons(h, rest) => if crate::list::is_empty_spec(rest) {
            ty_pieces_spec(t, h)
        } else {
            crate::list::append_spec(
                ty_pieces_spec(t, h),
                crate::list::append_spec(word_spec(", "), tys_pieces_spec(t, rest)),
            )
        },
    }
}

/// Types with commas between them.
pub fn tys_pieces(t: &Tables, l: &List<Ty>) -> (r: List<Piece>)
    ensures
        r == tys_pieces_spec(t, l),
    decreases l,
{
    match l {
        List::Nil => List::Nil,
        List::Cons(h, rest) => if is_empty(rest) {
            ty_pieces(t, h)
        } else {
            append(ty_pieces(t, h), append(word(", "), tys_pieces(t, rest)))
        },
    }
}

/// [`named_pieces`], as a mathematical function.
pub open spec fn named_pieces_spec(t: &Tables, l: &List<(Symbol, Ty)>, eq: &'static str) -> List<Piece>
    decreases l,
{
    match l {
        List::Nil => List::Nil,
        List::Cons(h, rest) => {
            let first = crate::list::append_spec(
                chars_spec(h.0.text),
                crate::list::append_spec(word_spec(eq), ty_pieces_spec(t, &h.1)),
            );
            if crate::list::is_empty_spec(rest) {
                first
            } else {
                crate::list::append_spec(
                    first,
                    crate::list::append_spec(word_spec(", "), named_pieces_spec(t, rest, eq)),
                )
            }
        },
    }
}

/// Named types with commas between them.
pub fn named_pieces(t: &Tables, l: &List<(Symbol, Ty)>, eq: &'static str) -> (r: List<Piece>)
    ensures
        r == named_pieces_spec(t, l, eq),
    decreases l,
{
    match l {
        List::Nil => List::Nil,
        List::Cons(h, rest) => {
            let first = append(chars(dup_text(&h.0.text)), append(word(eq), ty_pieces(t, &h.1)));
            if is_empty(rest) {
                first
            } else {
                append(first, append(word(", "), named_pieces(t, rest, eq)))
            }
        },
    }
}

/// [`signature_text`], as a mathematical function.
pub open spec fn signature_text_spec(t: &Tables, ty: &Ty) -> List<Piece> {
    match ty {
        Ty::Func { params, ret, c: false } => crate::list::append_spec(
            word_spec("func("),
            crate::list::append_spec(
                tys_pieces_spec(t, params),
                crate::list::append_spec(word_spec(") -> "), ty_pieces_spec(t, ret)),
            ),
        ),
        _ => ty_pieces_spec(t, ty),
    }
}

/// A member's type as a signature rather than a value: a method's type is a
/// function pointer's, and a message reads better as what was written.
pub fn signature_text(t: &Tables, ty: &Ty) -> (r: List<Piece>)
    ensures
        r == signature_text_spec(t, ty),
{
    match ty {
        Ty::Func { params, ret, c: false } => append(
            word("func("),
            append(tys_pieces(t, params), append(word(") -> "), ty_pieces(t, ret))),
        ),
        _ => ty_pieces(t, ty),
    }
}

// Messages.

/// [`part_pieces`], as a mathematical function.
pub open spec fn part_pieces_spec(t: &Tables, p: &Part) -> List<Piece> {
    match p {
        Part::Text(s) => word_spec(s),
        Part::Name(n) => chars_spec(n.text),
        Part::Ty(ty) => ty_pieces_spec(t, ty),
        Part::Signature(ty) => signature_text_spec(t, ty),
        Part::Path(d) => chars_spec(path_text_spec(t, *d)),
        Part::Num(n) => chars_spec(crate::symbol::decimal_spec(*n)),
        Part::Tag(n) => chars_spec(tag_text_spec(*n)),
        Part::Int(n) => chars_spec(int_text_spec(n)),
        Part::Float(b) => crate::list::single_spec(Piece::Float(*b)),
        Part::Value(v) => value_pieces_spec(v),
        Part::Const(c) => const_pieces_spec(t, c),
        Part::Chars(s) => chars_spec((*s)),
        Part::ClosureNamesConst => word_spec(
            "a closure's parameters, result and shared locals cannot name a `const` generic parameter yet; take the value as an argument, or write a function",
        ),
    }
}

/// One part of a message.
pub fn part_pieces(t: &Tables, p: &Part) -> (r: List<Piece>)
    ensures
        r == part_pieces_spec(t, p),
{
    match p {
        Part::Text(s) => word(s),
        Part::Name(n) => chars(dup_text(&n.text)),
        Part::Ty(ty) => ty_pieces(t, ty),
        Part::Signature(ty) => signature_text(t, ty),
        Part::Path(d) => chars(path_text(t, *d)),
        Part::Num(n) => chars(decimal(*n)),
        Part::Tag(n) => chars(tag_text(*n)),
        Part::Int(n) => chars(int_text(n)),
        Part::Float(b) => single(Piece::Float(*b)),
        Part::Value(v) => value_pieces(v),
        Part::Const(c) => const_pieces(t, c),
        Part::Chars(s) => chars(dup_text(s)),
        Part::ClosureNamesConst => word(
            "a closure's parameters, result and shared locals cannot name a `const` generic parameter yet; take the value as an argument, or write a function",
        ),
    }
}

/// [`render`], as a mathematical function.
pub open spec fn render_spec(t: &Tables, l: &List<Part>) -> List<Piece>
    decreases l,
{
    match l {
        List::Nil => List::Nil,
        List::Cons(h, rest) => crate::list::append_spec(part_pieces_spec(t, h), render_spec(t, rest)),
    }
}

/// A message, as the pieces of its text.
pub fn render(t: &Tables, l: &List<Part>) -> (r: List<Piece>)
    ensures
        r == render_spec(t, l),
    decreases l,
{
    match l {
        List::Nil => List::Nil,
        List::Cons(h, rest) => append(part_pieces(t, h), render(t, rest)),
    }
}

} // verus!
