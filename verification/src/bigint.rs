//! Integers of any size: what an integer literal is worth before anything says
//! how wide it is.

use num_bigint::{BigInt, Sign};
use num_traits::ToPrimitive;
use vstd::arithmetic::power2::{lemma2_to64, lemma2_to64_rest, lemma_pow2_adds, lemma_pow2_pos, lemma_pow2_unfold, pow2};
use vstd::prelude::*;

use crate::list::{list_of, vec_of, List};

verus! {

/// An integer: a sign, and a magnitude in base 2^32, low digit first.
pub struct Int {
    pub negative: bool,
    pub digits: List<u32>,
}

/// The number a run of base-2^32 digits spells, low digit first.
pub open spec fn digits_value(s: Seq<u32>) -> int
    decreases s.len(),
{
    if s.len() == 0 {
        0
    } else {
        s[0] + 0x1_0000_0000 * digits_value(s.subrange(1, s.len() as int))
    }
}

/// A magnitude with its sign.
pub open spec fn signed_value(negative: bool, digits: Seq<u32>) -> int {
    if negative { -digits_value(digits) } else { digits_value(digits) }
}

impl Int {
    /// The integer itself.
    pub open spec fn value(&self) -> int {
        signed_value(self.negative, self.digits@)
    }
}

/// A copy of a run of digits.
pub fn dup_digits(l: &List<u32>) -> (r: List<u32>)
    ensures
        r == *l,
    decreases l,
{
    match l {
        List::Nil => List::Nil,
        List::Cons(h, t) => List::Cons(*h, Box::new(dup_digits(t))),
    }
}

/// A copy of an integer.
pub fn dup_int(x: &Int) -> (r: Int)
    ensures
        r == *x,
{
    Int { negative: x.negative, digits: dup_digits(&x.digits) }
}

/// [`digits_eq`], as a mathematical function.
pub open spec fn digits_eq_spec(a: &List<u32>, b: &List<u32>) -> bool {
    *a == *b
}

/// Whether two runs of digits are the same.
pub fn digits_eq(a: &List<u32>, b: &List<u32>) -> (r: bool)
    ensures
        r == digits_eq_spec(a, b),
    decreases a,
{
    match a {
        List::Nil => match b {
            List::Nil => true,
            List::Cons(_, _) => false,
        },
        List::Cons(x, s) => match b {
            List::Nil => false,
            List::Cons(y, t) => *x == *y && digits_eq(s, t),
        },
    }
}

/// [`int_eq`], as a mathematical function.
pub open spec fn int_eq_spec(a: &Int, b: &Int) -> bool {
    *a == *b
}

/// Whether two integers are written the same.
pub fn int_eq(a: &Int, b: &Int) -> (r: bool)
    ensures
        r == int_eq_spec(a, b),
{
    a.negative == b.negative && digits_eq(&a.digits, &b.digits)
}

/// [`int_of`], as a mathematical function.
pub open spec fn int_of_spec(n: u64) -> Int {
    Int {
        negative: false,
        digits: if n == 0 {
            List::Nil
        } else if n < 0x1_0000_0000 {
            List::Cons(n as u32, Box::new(List::Nil))
        } else {
            List::Cons(
                (n % 0x1_0000_0000) as u32,
                Box::new(List::Cons((n / 0x1_0000_0000) as u32, Box::new(List::Nil))),
            )
        },
    }
}

/// The integer a machine word holds.
pub fn int_of(n: u64) -> (r: Int)
    ensures
        r == int_of_spec(n),
        r.value() == n,
{
    let digits: List<u32> = if n == 0 {
        List::Nil
    } else if n < 0x1_0000_0000 {
        List::Cons(n as u32, Box::new(List::Nil))
    } else {
        List::Cons(
            (n % 0x1_0000_0000) as u32,
            Box::new(List::Cons((n / 0x1_0000_0000) as u32, Box::new(List::Nil))),
        )
    };
    proof {
        reveal_with_fuel(crate::list::list_seq, 3);
        reveal_with_fuel(digits_value, 3);
        if n >= 0x1_0000_0000 {
            let lo = (n % 0x1_0000_0000) as u32;
            let hi = (n / 0x1_0000_0000) as u32;
            assert(digits@ =~= seq![lo, hi]);
            assert(digits@.subrange(1, 2) =~= seq![hi]);
            assert(seq![hi].subrange(1, 1) =~= Seq::<u32>::empty());
        } else if n > 0 {
            assert(digits@ =~= seq![n as u32]);
            assert(digits@.subrange(1, 1) =~= Seq::<u32>::empty());
        }
    }
    Int { negative: false, digits }
}

/// [`int_neg`], as a mathematical function.
pub open spec fn int_neg_spec(x: &Int) -> Int {
    match &x.digits {
        List::Nil => *x,
        List::Cons(_, _) => Int { negative: !x.negative, digits: x.digits },
    }
}

/// The negation of an integer.
pub fn int_neg(x: &Int) -> (r: Int)
    ensures
        r == int_neg_spec(x),
        r.value() == -x.value(),
{
    match &x.digits {
        List::Nil => dup_int(x),
        List::Cons(_, _) => Int { negative: !x.negative, digits: dup_digits(&x.digits) },
    }
}

/// Compares two integers with `num_bigint`'s `<=` on `BigInt`, each built from
/// its sign and digits by `BigInt::from_slice`. The contract claims that the
/// comparison is the one on the integers the digits spell.
#[verifier::external_body]
fn big_le(a_negative: bool, a: &Vec<u32>, b_negative: bool, b: &Vec<u32>) -> (r: bool)
    ensures
        r == (signed_value(a_negative, a@) <= signed_value(b_negative, b@)),
{
    let x = BigInt::from_slice(if a_negative { Sign::Minus } else { Sign::Plus }, a);
    let y = BigInt::from_slice(if b_negative { Sign::Minus } else { Sign::Plus }, b);
    x <= y
}

/// [`int_le`], as a mathematical function.
pub open spec fn int_le_spec(a: &Int, b: &Int) -> bool {
    a.value() <= b.value()
}

/// Whether `a` is at most `b`.
pub fn int_le(a: &Int, b: &Int) -> (r: bool)
    ensures
        r == int_le_spec(a, b),
{
    let x = vec_of(dup_digits(&a.digits));
    let y = vec_of(dup_digits(&b.digits));
    big_le(a.negative, &x, b.negative, &y)
}

/// Reads an integer with `num_traits`' `ToPrimitive::to_i128` on a `BigInt`
/// built from its sign and digits. The contract claims that the answer is the
/// integer itself where an `i128` holds it, and `None` exactly where none does.
#[verifier::external_body]
fn big_to_i128(negative: bool, digits: &Vec<u32>) -> (r: Option<i128>)
    ensures
        match r {
            Some(n) => n == signed_value(negative, digits@),
            None => signed_value(negative, digits@) < i128::MIN
                || signed_value(negative, digits@) > i128::MAX,
        },
{
    BigInt::from_slice(if negative { Sign::Minus } else { Sign::Plus }, digits).to_i128()
}

/// [`int_to_i128`], as a mathematical function.
pub open spec fn int_to_i128_spec(x: &Int) -> Option<i128> {
    if i128::MIN <= x.value() <= i128::MAX { Some(x.value() as i128) } else { None }
}

/// The integer as an `i128`, where one holds it.
pub fn int_to_i128(x: &Int) -> (r: Option<i128>)
    ensures
        r == int_to_i128_spec(x),
{
    let d = vec_of(dup_digits(&x.digits));
    big_to_i128(x.negative, &d)
}

/// The base-2^32 digits of a number, low digit first, without a leading zero.
pub open spec fn number_digits(n: nat) -> Seq<u32>
    decreases n,
{
    if n == 0 {
        Seq::empty()
    } else {
        seq![(n % 0x1_0000_0000) as u32] + number_digits(n / 0x1_0000_0000)
    }
}

/// The digits of an integer's magnitude.
pub open spec fn value_digits(v: int) -> Seq<u32> {
    number_digits(if v < 0 { (-v) as nat } else { v as nat })
}

/// The integer of a value, written without a leading zero.
pub open spec fn int_from_value(v: int) -> Int {
    Int { negative: v < 0, digits: crate::list::list_of_seq(value_digits(v)) }
}

proof fn number_digits_spell_it(n: nat)
    ensures
        digits_value(number_digits(n)) == n,
    decreases n,
{
    if n > 0 {
        let rest = number_digits(n / 0x1_0000_0000);
        number_digits_spell_it(n / 0x1_0000_0000);
        assert(number_digits(n).subrange(1, number_digits(n).len() as int) =~= rest);
    }
}

/// A list holds exactly the elements of the sequence it was made from.
pub proof fn list_of_seq_holds_it<T>(s: Seq<T>)
    ensures
        crate::list::list_of_seq(s)@ == s,
    decreases s.len(),
{
    if s.len() > 0 {
        list_of_seq_holds_it(s.subrange(1, s.len() as int));
        assert(seq![s[0]] + s.subrange(1, s.len() as int) =~= s);
    }
}

/// The integer of a value is worth that value.
pub proof fn value_of_int_from_value(v: int)
    ensures
        int_from_value(v).value() == v,
{
    list_of_seq_holds_it(value_digits(v));
    number_digits_spell_it(if v < 0 { (-v) as nat } else { v as nat });
}

/// Division that rounds towards zero.
pub open spec fn trunc_div(a: int, b: int) -> int {
    let n = if a < 0 { -a } else { a };
    let d = if b < 0 { -b } else { b };
    if (a < 0) == (b < 0) { n / d } else { -(n / d) }
}

/// What division that rounds towards zero leaves.
pub open spec fn trunc_rem(a: int, b: int) -> int {
    let n = if a < 0 { -a } else { a };
    let d = if b < 0 { -b } else { b };
    if a < 0 { -(n % d) } else { n % d }
}

/// The integer whose bits, in two's complement, are set where both of two
/// integers' are.
pub open spec fn bits_and(a: int, b: int) -> int
    decreases magnitude(a) + magnitude(b),
{
    if a == 0 || b == 0 {
        0
    } else if a == -1 {
        b
    } else if b == -1 {
        a
    } else {
        2 * bits_and(a / 2, b / 2) + if a % 2 == 1 && b % 2 == 1 { 1int } else { 0 }
    }
}

/// The integer whose bits, in two's complement, are set where either of two
/// integers' is.
pub open spec fn bits_or(a: int, b: int) -> int
    decreases magnitude(a) + magnitude(b),
{
    if a == -1 || b == -1 {
        -1
    } else if a == 0 {
        b
    } else if b == 0 {
        a
    } else {
        2 * bits_or(a / 2, b / 2) + if a % 2 == 1 || b % 2 == 1 { 1int } else { 0 }
    }
}

/// The integer whose bits, in two's complement, are set where just one of two
/// integers' is.
pub open spec fn bits_xor(a: int, b: int) -> int
    decreases magnitude(a) + magnitude(b),
{
    if a == 0 {
        b
    } else if b == 0 {
        a
    } else if a == -1 {
        -b - 1
    } else if b == -1 {
        -a - 1
    } else {
        2 * bits_xor(a / 2, b / 2) + if a % 2 != b % 2 { 1int } else { 0 }
    }
}

/// How far an integer is from zero.
pub open spec fn magnitude(v: int) -> int {
    if v < 0 { -v } else { v }
}

/// Adds with `num_bigint`'s `+` on `BigInt`, built and taken apart
/// by `from_slice` and `to_u32_digits`. The contract claims that what comes out
/// is the sum of the two integers, as a sign and digits without a leading zero.
#[verifier::external_body]
fn big_add(a_negative: bool, a: &Vec<u32>, b_negative: bool, b: &Vec<u32>) -> (r: (bool, Vec<u32>))
    ensures
        r.0 == (signed_value(a_negative, a@) + signed_value(b_negative, b@) < 0),
        r.1@ == value_digits(signed_value(a_negative, a@) + signed_value(b_negative, b@)),
{
    let x = BigInt::from_slice(if a_negative { Sign::Minus } else { Sign::Plus }, a);
    let y = BigInt::from_slice(if b_negative { Sign::Minus } else { Sign::Plus }, b);
    let (sign, digits) = (x + y).to_u32_digits();
    (sign == Sign::Minus, digits)
}

/// [`int_add`], as a mathematical function.
pub open spec fn int_add_spec(a: &Int, b: &Int) -> Int {
    int_from_value(a.value() + b.value())
}

/// The sum of two integers.
pub fn int_add(a: &Int, b: &Int) -> (r: Int)
    ensures
        r == int_add_spec(a, b),
        r.value() == a.value() + b.value(),
{
    let x = vec_of(dup_digits(&a.digits));
    let y = vec_of(dup_digits(&b.digits));
    let (negative, digits) = big_add(a.negative, &x, b.negative, &y);
    proof {
        value_of_int_from_value(a.value() + b.value());
    }
    Int { negative: negative, digits: list_of(digits) }
}

/// Subtracts with `num_bigint`'s `-` on `BigInt`, built and taken apart
/// by `from_slice` and `to_u32_digits`. The contract claims that what comes out
/// is the difference of the two integers, as a sign and digits without a leading zero.
#[verifier::external_body]
fn big_sub(a_negative: bool, a: &Vec<u32>, b_negative: bool, b: &Vec<u32>) -> (r: (bool, Vec<u32>))
    ensures
        r.0 == (signed_value(a_negative, a@) - signed_value(b_negative, b@) < 0),
        r.1@ == value_digits(signed_value(a_negative, a@) - signed_value(b_negative, b@)),
{
    let x = BigInt::from_slice(if a_negative { Sign::Minus } else { Sign::Plus }, a);
    let y = BigInt::from_slice(if b_negative { Sign::Minus } else { Sign::Plus }, b);
    let (sign, digits) = (x - y).to_u32_digits();
    (sign == Sign::Minus, digits)
}

/// [`int_sub`], as a mathematical function.
pub open spec fn int_sub_spec(a: &Int, b: &Int) -> Int {
    int_from_value(a.value() - b.value())
}

/// The difference of two integers.
pub fn int_sub(a: &Int, b: &Int) -> (r: Int)
    ensures
        r == int_sub_spec(a, b),
        r.value() == a.value() - b.value(),
{
    let x = vec_of(dup_digits(&a.digits));
    let y = vec_of(dup_digits(&b.digits));
    let (negative, digits) = big_sub(a.negative, &x, b.negative, &y);
    proof {
        value_of_int_from_value(a.value() - b.value());
    }
    Int { negative: negative, digits: list_of(digits) }
}

/// Multiplies with `num_bigint`'s `*` on `BigInt`, built and taken apart
/// by `from_slice` and `to_u32_digits`. The contract claims that what comes out
/// is the product of the two integers, as a sign and digits without a leading zero.
#[verifier::external_body]
fn big_mul(a_negative: bool, a: &Vec<u32>, b_negative: bool, b: &Vec<u32>) -> (r: (bool, Vec<u32>))
    ensures
        r.0 == (signed_value(a_negative, a@) * signed_value(b_negative, b@) < 0),
        r.1@ == value_digits(signed_value(a_negative, a@) * signed_value(b_negative, b@)),
{
    let x = BigInt::from_slice(if a_negative { Sign::Minus } else { Sign::Plus }, a);
    let y = BigInt::from_slice(if b_negative { Sign::Minus } else { Sign::Plus }, b);
    let (sign, digits) = (x * y).to_u32_digits();
    (sign == Sign::Minus, digits)
}

/// [`int_mul`], as a mathematical function.
pub open spec fn int_mul_spec(a: &Int, b: &Int) -> Int {
    int_from_value(a.value() * b.value())
}

/// The product of two integers.
pub fn int_mul(a: &Int, b: &Int) -> (r: Int)
    ensures
        r == int_mul_spec(a, b),
        r.value() == a.value() * b.value(),
{
    let x = vec_of(dup_digits(&a.digits));
    let y = vec_of(dup_digits(&b.digits));
    let (negative, digits) = big_mul(a.negative, &x, b.negative, &y);
    proof {
        value_of_int_from_value(a.value() * b.value());
    }
    Int { negative: negative, digits: list_of(digits) }
}

/// Divides with `num_bigint`'s `/` on `BigInt`, built and taken apart
/// by `from_slice` and `to_u32_digits`. The contract claims that what comes out
/// is the quotient of the two integers, rounded towards zero, as a sign and digits without a leading zero.
#[verifier::external_body]
fn big_div(a_negative: bool, a: &Vec<u32>, b_negative: bool, b: &Vec<u32>) -> (r: (bool, Vec<u32>))
    requires
        signed_value(b_negative, b@) != 0,
    ensures
        r.0 == (trunc_div(signed_value(a_negative, a@), signed_value(b_negative, b@)) < 0),
        r.1@ == value_digits(trunc_div(signed_value(a_negative, a@), signed_value(b_negative, b@))),
{
    let x = BigInt::from_slice(if a_negative { Sign::Minus } else { Sign::Plus }, a);
    let y = BigInt::from_slice(if b_negative { Sign::Minus } else { Sign::Plus }, b);
    let (sign, digits) = (x / y).to_u32_digits();
    (sign == Sign::Minus, digits)
}

/// [`int_div`], as a mathematical function.
pub open spec fn int_div_spec(a: &Int, b: &Int) -> Int {
    int_from_value(trunc_div(a.value(), b.value()))
}

/// The quotient of two integers, rounded towards zero.
pub fn int_div(a: &Int, b: &Int) -> (r: Int)
    requires
        b.value() != 0,
    ensures
        r == int_div_spec(a, b),
        r.value() == trunc_div(a.value(), b.value()),
{
    let x = vec_of(dup_digits(&a.digits));
    let y = vec_of(dup_digits(&b.digits));
    let (negative, digits) = big_div(a.negative, &x, b.negative, &y);
    proof {
        value_of_int_from_value(trunc_div(a.value(), b.value()));
    }
    Int { negative: negative, digits: list_of(digits) }
}

/// Divides with `num_bigint`'s `%` on `BigInt`, built and taken apart
/// by `from_slice` and `to_u32_digits`. The contract claims that what comes out
/// is the remainder of the two integers, with the sign of the first, as a sign and digits without a leading zero.
#[verifier::external_body]
fn big_rem(a_negative: bool, a: &Vec<u32>, b_negative: bool, b: &Vec<u32>) -> (r: (bool, Vec<u32>))
    requires
        signed_value(b_negative, b@) != 0,
    ensures
        r.0 == (trunc_rem(signed_value(a_negative, a@), signed_value(b_negative, b@)) < 0),
        r.1@ == value_digits(trunc_rem(signed_value(a_negative, a@), signed_value(b_negative, b@))),
{
    let x = BigInt::from_slice(if a_negative { Sign::Minus } else { Sign::Plus }, a);
    let y = BigInt::from_slice(if b_negative { Sign::Minus } else { Sign::Plus }, b);
    let (sign, digits) = (x % y).to_u32_digits();
    (sign == Sign::Minus, digits)
}

/// [`int_rem`], as a mathematical function.
pub open spec fn int_rem_spec(a: &Int, b: &Int) -> Int {
    int_from_value(trunc_rem(a.value(), b.value()))
}

/// The remainder of two integers, with the sign of the first.
pub fn int_rem(a: &Int, b: &Int) -> (r: Int)
    requires
        b.value() != 0,
    ensures
        r == int_rem_spec(a, b),
        r.value() == trunc_rem(a.value(), b.value()),
{
    let x = vec_of(dup_digits(&a.digits));
    let y = vec_of(dup_digits(&b.digits));
    let (negative, digits) = big_rem(a.negative, &x, b.negative, &y);
    proof {
        value_of_int_from_value(trunc_rem(a.value(), b.value()));
    }
    Int { negative: negative, digits: list_of(digits) }
}

/// Combines two integers with `num_bigint`'s `&` on `BigInt`, built and taken apart
/// by `from_slice` and `to_u32_digits`. The contract claims that what comes out
/// is the integer whose bits, in two's complement, are set where those of both of the two
/// are, as a sign and digits without a leading zero.
#[verifier::external_body]
fn big_and(a_negative: bool, a: &Vec<u32>, b_negative: bool, b: &Vec<u32>) -> (r: (bool, Vec<u32>))
    ensures
        r.0 == (bits_and(signed_value(a_negative, a@), signed_value(b_negative, b@)) < 0),
        r.1@ == value_digits(bits_and(signed_value(a_negative, a@), signed_value(b_negative, b@))),
{
    let x = BigInt::from_slice(if a_negative { Sign::Minus } else { Sign::Plus }, a);
    let y = BigInt::from_slice(if b_negative { Sign::Minus } else { Sign::Plus }, b);
    let (sign, digits) = (x & y).to_u32_digits();
    (sign == Sign::Minus, digits)
}

/// [`int_and`], as a mathematical function.
pub open spec fn int_and_spec(a: &Int, b: &Int) -> Int {
    int_from_value(bits_and(a.value(), b.value()))
}

/// The bits two integers share.
pub fn int_and(a: &Int, b: &Int) -> (r: Int)
    ensures
        r == int_and_spec(a, b),
        r.value() == bits_and(a.value(), b.value()),
{
    let x = vec_of(dup_digits(&a.digits));
    let y = vec_of(dup_digits(&b.digits));
    let (negative, digits) = big_and(a.negative, &x, b.negative, &y);
    proof {
        value_of_int_from_value(bits_and(a.value(), b.value()));
    }
    Int { negative: negative, digits: list_of(digits) }
}

/// Combines two integers with `num_bigint`'s `|` on `BigInt`, built and taken apart
/// by `from_slice` and `to_u32_digits`. The contract claims that what comes out
/// is the integer whose bits, in two's complement, are set where those of either of the two
/// are, as a sign and digits without a leading zero.
#[verifier::external_body]
fn big_or(a_negative: bool, a: &Vec<u32>, b_negative: bool, b: &Vec<u32>) -> (r: (bool, Vec<u32>))
    ensures
        r.0 == (bits_or(signed_value(a_negative, a@), signed_value(b_negative, b@)) < 0),
        r.1@ == value_digits(bits_or(signed_value(a_negative, a@), signed_value(b_negative, b@))),
{
    let x = BigInt::from_slice(if a_negative { Sign::Minus } else { Sign::Plus }, a);
    let y = BigInt::from_slice(if b_negative { Sign::Minus } else { Sign::Plus }, b);
    let (sign, digits) = (x | y).to_u32_digits();
    (sign == Sign::Minus, digits)
}

/// [`int_or`], as a mathematical function.
pub open spec fn int_or_spec(a: &Int, b: &Int) -> Int {
    int_from_value(bits_or(a.value(), b.value()))
}

/// The bits either of two integers has.
pub fn int_or(a: &Int, b: &Int) -> (r: Int)
    ensures
        r == int_or_spec(a, b),
        r.value() == bits_or(a.value(), b.value()),
{
    let x = vec_of(dup_digits(&a.digits));
    let y = vec_of(dup_digits(&b.digits));
    let (negative, digits) = big_or(a.negative, &x, b.negative, &y);
    proof {
        value_of_int_from_value(bits_or(a.value(), b.value()));
    }
    Int { negative: negative, digits: list_of(digits) }
}

/// Combines two integers with `num_bigint`'s `^` on `BigInt`, built and taken apart
/// by `from_slice` and `to_u32_digits`. The contract claims that what comes out
/// is the integer whose bits, in two's complement, are set where those of just one of the two
/// are, as a sign and digits without a leading zero.
#[verifier::external_body]
fn big_xor(a_negative: bool, a: &Vec<u32>, b_negative: bool, b: &Vec<u32>) -> (r: (bool, Vec<u32>))
    ensures
        r.0 == (bits_xor(signed_value(a_negative, a@), signed_value(b_negative, b@)) < 0),
        r.1@ == value_digits(bits_xor(signed_value(a_negative, a@), signed_value(b_negative, b@))),
{
    let x = BigInt::from_slice(if a_negative { Sign::Minus } else { Sign::Plus }, a);
    let y = BigInt::from_slice(if b_negative { Sign::Minus } else { Sign::Plus }, b);
    let (sign, digits) = (x ^ y).to_u32_digits();
    (sign == Sign::Minus, digits)
}

/// [`int_xor`], as a mathematical function.
pub open spec fn int_xor_spec(a: &Int, b: &Int) -> Int {
    int_from_value(bits_xor(a.value(), b.value()))
}

/// The bits exactly one of two integers has.
pub fn int_xor(a: &Int, b: &Int) -> (r: Int)
    ensures
        r == int_xor_spec(a, b),
        r.value() == bits_xor(a.value(), b.value()),
{
    let x = vec_of(dup_digits(&a.digits));
    let y = vec_of(dup_digits(&b.digits));
    let (negative, digits) = big_xor(a.negative, &x, b.negative, &y);
    proof {
        value_of_int_from_value(bits_xor(a.value(), b.value()));
    }
    Int { negative: negative, digits: list_of(digits) }
}

/// Shifts with `num_bigint`'s `<<` on `BigInt`, built and taken apart
/// by `from_slice` and `to_u32_digits`. The contract claims that what comes out
/// is the integer times that power of two, as a sign and digits without a leading zero.
#[verifier::external_body]
fn big_shl(negative: bool, digits: &Vec<u32>, bits: u32) -> (r: (bool, Vec<u32>))
    ensures
        r.0 == (signed_value(negative, digits@) * pow2(bits as nat) < 0),
        r.1@ == value_digits(signed_value(negative, digits@) * pow2(bits as nat)),
{
    let x = BigInt::from_slice(if negative { Sign::Minus } else { Sign::Plus }, digits);
    let (sign, digits) = (x << bits).to_u32_digits();
    (sign == Sign::Minus, digits)
}

/// [`int_shl`], as a mathematical function.
pub open spec fn int_shl_spec(x: &Int, bits: u32) -> Int {
    int_from_value(x.value() * pow2(bits as nat))
}

/// An integer shifted by a number of bits.
pub fn int_shl(x: &Int, bits: u32) -> (r: Int)
    ensures
        r == int_shl_spec(x, bits),
        r.value() == x.value() * pow2(bits as nat),
{
    let d = vec_of(dup_digits(&x.digits));
    let (negative, digits) = big_shl(x.negative, &d, bits);
    proof {
        value_of_int_from_value(x.value() * pow2(bits as nat));
    }
    Int { negative: negative, digits: list_of(digits) }
}

/// Shifts with `num_bigint`'s `>>` on `BigInt`, built and taken apart
/// by `from_slice` and `to_u32_digits`. The contract claims that what comes out
/// is the integer divided by that power of two, rounded down, as a sign and digits without a leading zero.
#[verifier::external_body]
fn big_shr(negative: bool, digits: &Vec<u32>, bits: u32) -> (r: (bool, Vec<u32>))
    ensures
        r.0 == (signed_value(negative, digits@) / (pow2(bits as nat) as int) < 0),
        r.1@ == value_digits(signed_value(negative, digits@) / (pow2(bits as nat) as int)),
{
    let x = BigInt::from_slice(if negative { Sign::Minus } else { Sign::Plus }, digits);
    let (sign, digits) = (x >> bits).to_u32_digits();
    (sign == Sign::Minus, digits)
}

/// [`int_shr`], as a mathematical function.
pub open spec fn int_shr_spec(x: &Int, bits: u32) -> Int {
    int_from_value(x.value() / (pow2(bits as nat) as int))
}

/// An integer shifted by a number of bits.
pub fn int_shr(x: &Int, bits: u32) -> (r: Int)
    ensures
        r == int_shr_spec(x, bits),
        r.value() == x.value() / (pow2(bits as nat) as int),
{
    let d = vec_of(dup_digits(&x.digits));
    let (negative, digits) = big_shr(x.negative, &d, bits);
    proof {
        value_of_int_from_value(x.value() / (pow2(bits as nat) as int));
    }
    Int { negative: negative, digits: list_of(digits) }
}

/// The digits of 2^(32 * zeros) * top.
fn shifted_digit(zeros: u32, top: u32) -> (r: List<u32>)
    ensures
        digits_value(r@) == top * pow2(32 * zeros as nat),
    decreases zeros,
{
    if zeros == 0 {
        let r = List::Cons(top, Box::new(List::Nil));
        proof {
            reveal_with_fuel(crate::list::list_seq, 2);
            reveal_with_fuel(digits_value, 2);
            assert(r@ =~= seq![top]);
            assert(r@.subrange(1, 1) =~= Seq::<u32>::empty());
            lemma2_to64();
        }
        r
    } else {
        let rest = shifted_digit(zeros - 1, top);
        let ghost rest_seq = rest@;
        let r = List::Cons(0, Box::new(rest));
        proof {
            assert(r@ =~= seq![0u32] + rest_seq);
            assert(r@.subrange(1, r@.len() as int) =~= rest_seq);
            lemma_pow2_adds(32, 32 * (zeros - 1) as nat);
            lemma2_to64();
            let p = pow2(32 * (zeros - 1) as nat) as int;
            assert(0x1_0000_0000 * (top * p) == top * (0x1_0000_0000 * p)) by (nonlinear_arith);
        }
        r
    }
}

/// 2 to the power of `bits`.
fn int_pow2(bits: u32) -> (r: Int)
    ensures
        r.value() == pow2(bits as nat),
{
    let low: u32 = bits % 32;
    let zeros: u32 = bits / 32;
    let top: u32 = 1u32 << low;
    proof {
        vstd::bits::lemma_u32_pow2_no_overflow(low as nat);
        vstd::bits::lemma_u32_shl_is_mul(1, low);
        assert(top == pow2(low as nat));
        lemma_pow2_adds(low as nat, 32 * zeros as nat);
    }
    Int { negative: false, digits: shifted_digit(zeros, top) }
}

/// Whether an integer type of `bits` bits holds a value.
pub open spec fn int_fits_spec(x: &Int, signed: bool, bits: u64) -> bool {
    if bits == 0 || bits > 65535 {
        false
    } else if signed {
        -(pow2((bits - 1) as nat) as int) <= x.value() < pow2((bits - 1) as nat)
    } else {
        0 <= x.value() < pow2(bits as nat)
    }
}

/// Whether an integer type of `bits` bits holds a value.
pub fn int_fits(x: &Int, signed: bool, bits: u64) -> (r: bool)
    ensures
        r == int_fits_spec(x, signed, bits),
{
    if bits == 0 || bits > 65535 {
        return false;
    }
    let top = int_pow2(if signed { (bits - 1) as u32 } else { bits as u32 });
    let low = if signed { int_neg(&top) } else { int_of(0) };
    int_le(&low, x) && !int_le(&top, x)
}

// Doubles, by their bits.

/// How many bits a number is written with.
pub open spec fn bit_length(m: nat) -> nat
    decreases m,
{
    if m == 0 {
        0
    } else {
        1 + bit_length(m / 2)
    }
}

/// A number divided by a power of two, rounded to the nearest: a tie goes to the
/// even one.
pub open spec fn rounded(m: nat, bits: nat) -> nat {
    let q = m / pow2(bits);
    let rest = m % pow2(bits);
    if 2 * rest > pow2(bits) || (2 * rest == pow2(bits) && q % 2 == 1) {
        q + 1
    } else {
        q
    }
}

/// The first 53 bits of a number, rounded; all 54 of them where rounding carries.
pub open spec fn significand(m: nat) -> nat {
    let len = bit_length(m);
    if len <= 53 {
        m * pow2((53 - len) as nat)
    } else {
        rounded(m, (len - 53) as nat)
    }
}

/// The bits of the double nearest to a magnitude. The exponent stands above the
/// significand, whose first bit is not written, so a carry out of the significand
/// counts the exponent up. Nothing is above infinity.
pub open spec fn magnitude_bits(m: nat) -> nat {
    if m == 0 {
        0
    } else {
        let bits = (bit_length(m) + 1021) * 0x10_0000_0000_0000 + significand(m);
        if bits < 0x7ff0_0000_0000_0000 {
            bits
        } else {
            0x7ff0_0000_0000_0000
        }
    }
}

/// The bits of the double nearest to an integer.
pub open spec fn double_bits(v: int) -> u64 {
    if v < 0 {
        (0x8000_0000_0000_0000 + magnitude_bits((-v) as nat)) as u64
    } else {
        magnitude_bits(v as nat) as u64
    }
}

proof fn a_number_is_as_long_as_its_power(m: nat, k: nat)
    requires
        0 < k,
        pow2((k - 1) as nat) <= m < pow2(k),
    ensures
        bit_length(m) == k,
    decreases k,
{
    lemma_pow2_unfold(k);
    lemma_pow2_pos((k - 1) as nat);
    if k == 1 {
        lemma2_to64();
        reveal_with_fuel(bit_length, 2);
    } else {
        lemma_pow2_unfold((k - 1) as nat);
        a_number_is_as_long_as_its_power(m / 2, (k - 1) as nat);
    }
}

proof fn a_number_reaches_its_power(m: nat)
    requires
        0 < m,
    ensures
        0 < bit_length(m),
        pow2((bit_length(m) - 1) as nat) <= m < pow2(bit_length(m)),
    decreases m,
{
    lemma2_to64();
    if m == 1 {
        reveal_with_fuel(bit_length, 2);
    } else {
        a_number_reaches_its_power(m / 2);
        lemma_pow2_unfold(bit_length(m));
        lemma_pow2_unfold((bit_length(m) - 1) as nat);
    }
}

proof fn a_significand_has_its_first_bit(m: nat)
    requires
        0 < m,
    ensures
        0x10_0000_0000_0000 <= significand(m) <= 0x20_0000_0000_0000,
{
    let len = bit_length(m);
    a_number_reaches_its_power(m);
    lemma2_to64();
    lemma2_to64_rest();
    if len <= 53 {
        let s = (53 - len) as nat;
        lemma_pow2_adds((len - 1) as nat, s);
        lemma_pow2_adds(len, s);
        let (p, t, u) = (pow2((len - 1) as nat) as int, pow2(s) as int, pow2(len) as int);
        assert(p * t <= m * t < u * t) by (nonlinear_arith)
            requires
                p <= m < u,
                0 < t,
        ;
    } else {
        let k = (len - 53) as nat;
        lemma_pow2_pos(k);
        lemma_pow2_adds(52, k);
        lemma_pow2_adds(53, k);
        let (q, p) = ((m / pow2(k)) as int, pow2(k) as int);
        vstd::arithmetic::div_mod::lemma_fundamental_div_mod(m as int, p);
        assert(0x10_0000_0000_0000 <= q < 0x20_0000_0000_0000) by (nonlinear_arith)
            requires
                m == p * q + (m as int) % p,
                0 <= (m as int) % p < p,
                0x10_0000_0000_0000 * p <= m < 0x20_0000_0000_0000 * p,
        ;
    }
}

/// A magnitude as the number of bits it takes, where that is at most `limit`.
fn int_length(m: &Int, limit: u32) -> (r: Option<u32>)
    requires
        0 < m.value(),
    ensures
        match r {
            Some(k) => k <= limit && bit_length(m.value() as nat) == k,
            None => pow2(limit as nat) <= m.value(),
        },
{
    let mut k: u32 = 0;
    proof {
        lemma2_to64();
    }
    while k < limit
        invariant
            k <= limit,
            pow2(k as nat) <= m.value(),
        decreases limit - k,
    {
        k = k + 1;
        if !int_le(&int_pow2(k), m) {
            proof {
                a_number_is_as_long_as_its_power(m.value() as nat, k as nat);
            }
            return Some(k);
        }
    }
    None
}

/// A magnitude that a word holds, as that word.
fn int_to_word(m: &Int) -> (r: u64)
    requires
        0 <= m.value() < 0x8000_0000_0000_0000,
    ensures
        r == m.value(),
{
    match int_to_i128(m) {
        Some(n) => n as u64,
        None => 0,
    }
}

/// The significand of a magnitude of `len` bits.
fn int_significand(m: &Int, len: u32) -> (r: u64)
    requires
        0 < m.value(),
        len == bit_length(m.value() as nat),
        len <= 1024,
    ensures
        r == significand(m.value() as nat),
{
    let ghost v = m.value() as nat;
    proof {
        a_number_reaches_its_power(v);
        a_significand_has_its_first_bit(v);
        lemma2_to64();
        lemma2_to64_rest();
    }
    if len <= 53 {
        proof {
            lemma_pow2_up(len as nat, 53);
        }
        let w = int_to_word(&int_shl(m, 53 - len));
        w
    } else {
        let k: u32 = len - 53;
        let high = int_shr(m, k - 1);
        let ghost p = pow2((k - 1) as nat);
        proof {
            lemma_pow2_pos((k - 1) as nat);
            lemma_pow2_adds(54, (k - 1) as nat);
            lemma_pow2_unfold(k as nat);
            vstd::arithmetic::div_mod::lemma_fundamental_div_mod(v as int, p as int);
            let (h, pi) = (v as int / p as int, p as int);
            assert(0 <= h < 0x40_0000_0000_0000) by (nonlinear_arith)
                requires
                    v == pi * h + (v as int) % pi,
                    0 <= (v as int) % pi < pi,
                    0 <= v < 0x40_0000_0000_0000 * pi,
            ;
        }
        let h: u64 = int_to_word(&high);
        let exact = int_le(m, &int_shl(&high, k - 1));
        let q: u64 = h / 2;
        let up = h % 2 == 1 && (!exact || q % 2 == 1);
        proof {
            let (vi, pi) = (v as int, p as int);
            vstd::arithmetic::div_mod::lemma_div_denominator(vi, pi, 2);
            vstd::arithmetic::div_mod::lemma_mod_breakdown(vi, pi, 2);
            assert(pow2(k as nat) == pi * 2);
            assert(v / pow2(k as nat) == q);
            let low = vi % pi;
            let rest = vi % (pi * 2);
            assert(h as int * pi == pi * h as int) by (nonlinear_arith);
            assert(exact == (low == 0));
            let odd = (h % 2) as int;
            assert(rest == pi * odd + low);
            if odd == 1 {
                assert(pi * odd == pi) by (nonlinear_arith)
                    requires
                        odd == 1,
                ;
            } else {
                assert(pi * odd == 0) by (nonlinear_arith)
                    requires
                        odd == 0,
                ;
            }
        }
        if up { q + 1 } else { q }
    }
}

proof fn lemma_pow2_up(a: nat, b: nat)
    requires
        a <= b,
    ensures
        pow2(a) <= pow2(b),
{
    if a < b {
        vstd::arithmetic::power2::lemma_pow2_strictly_increases(a, b);
    }
}

/// [`int_to_double`], as a mathematical function.
pub open spec fn int_to_double_spec(x: &Int) -> u64 {
    double_bits(x.value())
}

/// The bits of the double nearest to an integer.
pub fn int_to_double(x: &Int) -> (r: u64)
    ensures
        r == int_to_double_spec(x),
{
    let zero = int_of(0);
    let negative = !int_le(&zero, x);
    let m = if negative { int_neg(x) } else { dup_int(x) };
    if int_le(&m, &zero) {
        return 0;
    }
    let ghost v = m.value() as nat;
    proof {
        a_significand_has_its_first_bit(v);
    }
    let bits: u64 = match int_length(&m, 1024) {
        Some(len) => {
            let s = int_significand(&m, len);
            let b: u64 = (len as u64 + 1021) * 0x10_0000_0000_0000 + s;
            if b < 0x7ff0_0000_0000_0000 { b } else { 0x7ff0_0000_0000_0000 }
        },
        None => {
            proof {
                a_number_reaches_its_power(v);
                if bit_length(v) <= 1024 {
                    lemma_pow2_up(bit_length(v), 1024);
                }
            }
            0x7ff0_0000_0000_0000
        },
    };
    if negative { 0x8000_0000_0000_0000 + bits } else { bits }
}

} // verus!
