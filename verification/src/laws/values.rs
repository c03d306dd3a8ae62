//! Laws of values at compile time.

use vstd::arithmetic::div_mod::lemma_fundamental_div_mod;
use vstd::arithmetic::power2::{lemma_pow2_pos, pow2};
use vstd::prelude::*;

use crate::ast::BinOp;
use crate::bigint::{bits_and, bits_or, bits_xor, trunc_div, trunc_rem, value_of_int_from_value, Int};
use crate::fold::Folded;
use crate::ids::{FileId, NodeId};
use crate::ty::{Const, ConstValue, Ty};
use crate::unify::{InferCx, InfererV};

verus! {

/// A number read at an integer type is that number where the type holds it, with
/// nothing said, and an error where it does not.
pub proof fn a_number_is_read_where_it_fits(
    st: InfererV,
    env: &InferCx,
    file: FileId,
    node: NodeId,
    n: Int,
    want: Ty,
    what: &'static str,
    signed: bool,
    bits: u64,
)
    requires
        crate::subst::int_parts_spec(&crate::unify::numeric_repr_spec(st, &want)) == Some((signed, bits)),
    ensures
        ({
            let (after, c) = crate::types::const_from_value_spec(st, env, file, node, ConstValue::Int(n), &want, what);
            if crate::bigint::int_fits_spec(&n, signed, bits) {
                c == Const::Value(Box::new(want), ConstValue::Int(n)) && after == st
            } else {
                c == Const::Error
            }
        }),
{
}

/// Sums, differences and products are exact, whatever their size.
pub proof fn arithmetic_is_exact(a: Int, b: Int)
    ensures
        match crate::fold::fold_ints_spec(BinOp::Add, &a, &b) {
            Folded::Value(ConstValue::Int(r)) => r.value() == a.value() + b.value(),
            _ => false,
        },
        match crate::fold::fold_ints_spec(BinOp::Sub, &a, &b) {
            Folded::Value(ConstValue::Int(r)) => r.value() == a.value() - b.value(),
            _ => false,
        },
        match crate::fold::fold_ints_spec(BinOp::Mul, &a, &b) {
            Folded::Value(ConstValue::Int(r)) => r.value() == a.value() * b.value(),
            _ => false,
        },
{
    value_of_int_from_value(a.value() + b.value());
    value_of_int_from_value(a.value() - b.value());
    value_of_int_from_value(a.value() * b.value());
}

/// A quotient and its remainder give the dividend back, the remainder is smaller
/// than the divisor, and it has the dividend's sign.
pub proof fn division_gives_back_what_was_divided(a: int, b: int)
    requires
        b != 0,
    ensures
        a == b * trunc_div(a, b) + trunc_rem(a, b),
        -(if b < 0 { -b } else { b }) < trunc_rem(a, b) < (if b < 0 { -b } else { b }),
        a >= 0 ==> trunc_rem(a, b) >= 0,
        a <= 0 ==> trunc_rem(a, b) <= 0,
{
    let n = if a < 0 { -a } else { a };
    let d = if b < 0 { -b } else { b };
    lemma_fundamental_div_mod(n, d);
    assert(0 <= n % d < d) by (nonlinear_arith)
        requires
            d > 0,
    ;
    let q = n / d;
    assert(b * q == -(b * (-q))) by (nonlinear_arith);
    assert(b < 0 ==> b * q == -(d * q)) by (nonlinear_arith)
        requires
            b < 0 ==> d == -b,
    ;
}

/// Dividing by zero has no value.
pub proof fn nothing_is_divided_by_zero(a: Int, b: Int)
    requires
        b.value() == 0,
    ensures
        crate::fold::fold_ints_spec(BinOp::Div, &a, &b) is Fail,
        crate::fold::fold_ints_spec(BinOp::Rem, &a, &b) is Fail,
{
    zero_is_zero();
}

proof fn zero_is_zero()
    ensures
        crate::bigint::int_of_spec(0).value() == 0,
{
    reveal_with_fuel(crate::bigint::digits_value, 3);
    reveal_with_fuel(crate::list::list_seq, 3);
}

/// Shifting left and back again changes nothing.
pub proof fn shifting_back_undoes_a_shift(x: Int, bits: u32)
    ensures
        crate::bigint::int_shr_spec(&crate::bigint::int_shl_spec(&x, bits), bits).value() == x.value(),
{
    let p = pow2(bits as nat) as int;
    lemma_pow2_pos(bits as nat);
    value_of_int_from_value(x.value() * p);
    value_of_int_from_value((x.value() * p) / p);
    vstd::arithmetic::div_mod::lemma_div_multiples_vanish(x.value(), p);
    assert(x.value() * p == p * x.value()) by (nonlinear_arith);
}

/// A comparison and its opposite never agree.
pub proof fn opposite_comparisons_differ(a: Int, b: Int)
    ensures
        opposite(crate::fold::fold_ints_spec(BinOp::Eq, &a, &b), crate::fold::fold_ints_spec(BinOp::Ne, &a, &b)),
        opposite(crate::fold::fold_ints_spec(BinOp::Lt, &a, &b), crate::fold::fold_ints_spec(BinOp::Ge, &a, &b)),
        opposite(crate::fold::fold_ints_spec(BinOp::Gt, &a, &b), crate::fold::fold_ints_spec(BinOp::Le, &a, &b)),
        crate::fold::fold_ints_spec(BinOp::Lt, &a, &b) == Folded::Value(ConstValue::Bool(a.value() < b.value())),
        crate::fold::fold_ints_spec(BinOp::Eq, &a, &b) == Folded::Value(ConstValue::Bool(a.value() == b.value())),
{
}

/// Whether two answers are the two truth values.
pub open spec fn opposite(x: Folded, y: Folded) -> bool {
    match (x, y) {
        (Folded::Value(ConstValue::Bool(p)), Folded::Value(ConstValue::Bool(q))) => p != q,
        _ => false,
    }
}

/// The bits of an integer combined with its own are its own, or none.
pub proof fn bits_with_themselves(a: int)
    ensures
        bits_and(a, a) == a,
        bits_or(a, a) == a,
        bits_xor(a, a) == 0,
    decreases crate::bigint::magnitude(a),
{
    if a != 0 && a != -1 {
        bits_with_themselves(a / 2);
    }
}

/// Combining bits does not depend on which integer comes first.
pub proof fn bits_combine_either_way(a: int, b: int)
    ensures
        bits_and(a, b) == bits_and(b, a),
        bits_or(a, b) == bits_or(b, a),
        bits_xor(a, b) == bits_xor(b, a),
    decreases crate::bigint::magnitude(a) + crate::bigint::magnitude(b),
{
    if a != 0 && a != -1 && b != 0 && b != -1 {
        bits_combine_either_way(a / 2, b / 2);
    }
}

} // verus!
