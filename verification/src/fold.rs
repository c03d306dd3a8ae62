//! Arithmetic on compile-time values. Integers have any size; nothing here
//! computes with floats.

use vstd::prelude::*;

use crate::ast::{BinOp, UnOp};
use crate::bigint::{
    dup_int, int_add, int_and, int_div, int_le, int_mul, int_neg, int_of, int_or, int_rem, int_shl, int_shr,
    int_sub, int_xor, Int,
};
use crate::diag::{say, Part};
use crate::list::{list3, List};
use crate::symbol::text_eq;
use crate::ty::{dup_value, small_int, ConstValue};

verus! {

/// What folding an operator gave: a value, or why there is none.
pub enum Folded {
    Value(ConstValue),
    Fail(List<Part>),
}

/// [`not_applicable`], as a mathematical function.
pub open spec fn not_applicable_spec(v: &ConstValue) -> Folded {
    Folded::Fail(
        crate::list::list3_spec(
            Part::Text("this operator cannot be applied to `"),
            Part::Value((*v)),
            Part::Text("`"),
        ),
    )
}

/// The operator does not apply to what it was given.
pub fn not_applicable(v: &ConstValue) -> (r: Folded)
    ensures
        r == not_applicable_spec(v),
{
    Folded::Fail(
        list3(Part::Text("this operator cannot be applied to `"), Part::Value(dup_value(v)), Part::Text("`")),
    )
}

/// [`unary_op`], as a mathematical function.
pub open spec fn unary_op_spec(op: UnOp, v: &ConstValue) -> Folded {
    match (op, v) {
        (UnOp::Neg, ConstValue::Int(n)) => Folded::Value(ConstValue::Int(crate::bigint::int_neg_spec(n))),
        (UnOp::Neg, ConstValue::Float(b)) => Folded::Value(ConstValue::Float(*b ^ 0x8000_0000_0000_0000u64)),
        (UnOp::BitNot, ConstValue::Int(n)) => Folded::Value(
            ConstValue::Int(
                crate::bigint::int_sub_spec(&crate::bigint::int_neg_spec(n), &crate::bigint::int_of_spec(1)),
            ),
        ),
        (UnOp::Not, ConstValue::Bool(b)) => Folded::Value(ConstValue::Bool(!*b)),
        _ => not_applicable_spec(v),
    }
}

/// Fold a prefix operator.
pub fn unary_op(op: UnOp, v: &ConstValue) -> (r: Folded)
    ensures
        r == unary_op_spec(op, v),
{
    match (op, v) {
        (UnOp::Neg, ConstValue::Int(n)) => Folded::Value(ConstValue::Int(int_neg(n))),
        (UnOp::Neg, ConstValue::Float(b)) => Folded::Value(ConstValue::Float(*b ^ 0x8000_0000_0000_0000u64)),
        (UnOp::BitNot, ConstValue::Int(n)) => Folded::Value(
            ConstValue::Int(int_sub(&int_neg(n), &int_of(1))),
        ),
        (UnOp::Not, ConstValue::Bool(b)) => Folded::Value(ConstValue::Bool(!*b)),
        _ => not_applicable(v),
    }
}

/// [`compare`], as a mathematical function.
pub open spec fn compare_spec(op: BinOp, same: bool, before: bool) -> Option<bool> {
    match op {
        BinOp::Eq => Some(same),
        BinOp::Ne => Some(!same),
        BinOp::Lt => Some(before),
        BinOp::Le => Some(before || same),
        BinOp::Gt => Some(!before && !same),
        BinOp::Ge => Some(!before),
        _ => None,
    }
}

/// Whether a comparison holds, by whether its operands are equal and whether the
/// first comes before the second.
pub fn compare(op: BinOp, same: bool, before: bool) -> (r: Option<bool>)
    ensures
        r == compare_spec(op, same, before),
{
    match op {
        BinOp::Eq => Some(same),
        BinOp::Ne => Some(!same),
        BinOp::Lt => Some(before),
        BinOp::Le => Some(before || same),
        BinOp::Gt => Some(!before && !same),
        BinOp::Ge => Some(!before),
        _ => None,
    }
}

/// [`int_is_zero`], as a mathematical function.
pub open spec fn int_is_zero_spec(n: &Int) -> bool {
    crate::bigint::int_le_spec(n, &crate::bigint::int_of_spec(0))
        && crate::bigint::int_le_spec(&crate::bigint::int_of_spec(0), n)
}

/// Whether an integer is zero.
pub fn int_is_zero(n: &Int) -> (r: bool)
    ensures
        r == int_is_zero_spec(n),
{
    int_le(n, &int_of(0)) && int_le(&int_of(0), n)
}

/// [`fold_ints`], as a mathematical function.
pub open spec fn fold_ints_spec(op: BinOp, a: &Int, b: &Int) -> Folded {
    match compare_spec(
        op,
        crate::bigint::int_le_spec(a, b) && crate::bigint::int_le_spec(b, a),
        !crate::bigint::int_le_spec(b, a),
    ) {
        Some(r) => Folded::Value(ConstValue::Bool(r)),
        None => match op {
            BinOp::Add => Folded::Value(ConstValue::Int(crate::bigint::int_add_spec(a, b))),
            BinOp::Sub => Folded::Value(ConstValue::Int(crate::bigint::int_sub_spec(a, b))),
            BinOp::Mul => Folded::Value(ConstValue::Int(crate::bigint::int_mul_spec(a, b))),
            BinOp::BitAnd => Folded::Value(ConstValue::Int(crate::bigint::int_and_spec(a, b))),
            BinOp::BitOr => Folded::Value(ConstValue::Int(crate::bigint::int_or_spec(a, b))),
            BinOp::BitXor => Folded::Value(ConstValue::Int(crate::bigint::int_xor_spec(a, b))),
            BinOp::Div => if int_is_zero_spec(b) {
                Folded::Fail(crate::diag::say_spec("this divides by zero"))
            } else {
                Folded::Value(ConstValue::Int(crate::bigint::int_div_spec(a, b)))
            },
            BinOp::Rem => if int_is_zero_spec(b) {
                Folded::Fail(crate::diag::say_spec("this divides by zero"))
            } else {
                Folded::Value(ConstValue::Int(crate::bigint::int_rem_spec(a, b)))
            },
            BinOp::Shl => match shift_count_spec(b) {
                Some(n) => Folded::Value(ConstValue::Int(crate::bigint::int_shl_spec(a, n))),
                None => Folded::Fail(crate::diag::say_spec("this shifts by too many bits")),
            },
            BinOp::Shr => match shift_count_spec(b) {
                Some(n) => Folded::Value(ConstValue::Int(crate::bigint::int_shr_spec(a, n))),
                None => Folded::Fail(crate::diag::say_spec("this shifts by too many bits")),
            },
            _ => not_applicable_spec(&ConstValue::Int((*a))),
        },
    }
}

/// Fold a binary operator on integers.
pub fn fold_ints(op: BinOp, a: &Int, b: &Int) -> (r: Folded)
    ensures
        r == fold_ints_spec(op, a, b),
{
    match compare(op, int_le(a, b) && int_le(b, a), !int_le(b, a)) {
        Some(r) => Folded::Value(ConstValue::Bool(r)),
        None => match op {
            BinOp::Add => Folded::Value(ConstValue::Int(int_add(a, b))),
            BinOp::Sub => Folded::Value(ConstValue::Int(int_sub(a, b))),
            BinOp::Mul => Folded::Value(ConstValue::Int(int_mul(a, b))),
            BinOp::BitAnd => Folded::Value(ConstValue::Int(int_and(a, b))),
            BinOp::BitOr => Folded::Value(ConstValue::Int(int_or(a, b))),
            BinOp::BitXor => Folded::Value(ConstValue::Int(int_xor(a, b))),
            BinOp::Div => if int_is_zero(b) {
                Folded::Fail(say("this divides by zero"))
            } else {
                Folded::Value(ConstValue::Int(int_div(a, b)))
            },
            BinOp::Rem => if int_is_zero(b) {
                Folded::Fail(say("this divides by zero"))
            } else {
                Folded::Value(ConstValue::Int(int_rem(a, b)))
            },
            BinOp::Shl => match shift_count(b) {
                Some(n) => Folded::Value(ConstValue::Int(int_shl(a, n))),
                None => Folded::Fail(say("this shifts by too many bits")),
            },
            BinOp::Shr => match shift_count(b) {
                Some(n) => Folded::Value(ConstValue::Int(int_shr(a, n))),
                None => Folded::Fail(say("this shifts by too many bits")),
            },
            _ => not_applicable(&ConstValue::Int(dup_int(a))),
        },
    }
}

/// [`shift_count`], as a mathematical function.
pub open spec fn shift_count_spec(n: &Int) -> Option<u32> {
    match crate::ty::small_int_spec(n) {
        Some(k) => if k <= 65535 {
            Some(k as u32)
        } else {
            None
        },
        None => None,
    }
}

/// How many bits an integer shifts by, where that is no more than the widest
/// integer type has.
pub fn shift_count(n: &Int) -> (r: Option<u32>)
    ensures
        r == shift_count_spec(n),
{
    match small_int(n) {
        Some(k) => if k <= 65535 {
            Some(k as u32)
        } else {
            None
        },
        None => None,
    }
}

/// [`binary_values`], as a mathematical function.
pub open spec fn binary_values_spec(op: BinOp, a: &ConstValue, b: &ConstValue) -> Folded {
    match (a, b) {
        (ConstValue::Int(x), ConstValue::Int(y)) => fold_ints_spec(op, x, y),
        (ConstValue::Bool(x), ConstValue::Bool(y)) => match op {
            BinOp::Eq => Folded::Value(ConstValue::Bool(*x == *y)),
            BinOp::Ne => Folded::Value(ConstValue::Bool(*x != *y)),
            BinOp::BitAnd => Folded::Value(ConstValue::Bool(*x && *y)),
            BinOp::BitOr => Folded::Value(ConstValue::Bool(*x || *y)),
            BinOp::BitXor => Folded::Value(ConstValue::Bool(*x != *y)),
            _ => not_applicable_spec(a),
        },
        (ConstValue::Char(x), ConstValue::Char(y)) => match compare_spec(op, *x == *y, *x < *y) {
            Some(r) => Folded::Value(ConstValue::Bool(r)),
            None => not_applicable_spec(a),
        },
        (ConstValue::Str(x), ConstValue::Str(y)) => match op {
            BinOp::Eq => Folded::Value(ConstValue::Bool(crate::symbol::text_eq_spec(x, y))),
            BinOp::Ne => Folded::Value(ConstValue::Bool(!crate::symbol::text_eq_spec(x, y))),
            _ => not_applicable_spec(a),
        },
        _ => not_applicable_spec(a),
    }
}

/// Fold a binary operator.
pub fn binary_values(op: BinOp, a: &ConstValue, b: &ConstValue) -> (r: Folded)
    ensures
        r == binary_values_spec(op, a, b),
{
    match (a, b) {
        (ConstValue::Int(x), ConstValue::Int(y)) => fold_ints(op, x, y),
        (ConstValue::Bool(x), ConstValue::Bool(y)) => match op {
            BinOp::Eq => Folded::Value(ConstValue::Bool(*x == *y)),
            BinOp::Ne => Folded::Value(ConstValue::Bool(*x != *y)),
            BinOp::BitAnd => Folded::Value(ConstValue::Bool(*x && *y)),
            BinOp::BitOr => Folded::Value(ConstValue::Bool(*x || *y)),
            BinOp::BitXor => Folded::Value(ConstValue::Bool(*x != *y)),
            _ => not_applicable(a),
        },
        (ConstValue::Char(x), ConstValue::Char(y)) => match compare(op, *x == *y, *x < *y) {
            Some(r) => Folded::Value(ConstValue::Bool(r)),
            None => not_applicable(a),
        },
        (ConstValue::Str(x), ConstValue::Str(y)) => match op {
            BinOp::Eq => Folded::Value(ConstValue::Bool(text_eq(x, y))),
            BinOp::Ne => Folded::Value(ConstValue::Bool(!text_eq(x, y))),
            _ => not_applicable(a),
        },
        _ => not_applicable(a),
    }
}

} // verus!
