//! Singly linked lists. A list is an inductive value: two lists are equal
//! exactly when they hold the same elements in the same order, so the types
//! built from them can be compared as mathematical values in contracts.

use vstd::prelude::*;

verus! {

/// A list: empty, or an element in front of another list.
pub enum List<T> {
    Nil,
    Cons(T, Box<List<T>>),
}

impl<T> View for List<T> {
    type V = Seq<T>;

    /// The elements, front first.
    open spec fn view(&self) -> Seq<T> {
        list_seq(self)
    }
}

/// A list's elements, front first.
pub open spec fn list_seq<T>(l: &List<T>) -> Seq<T>
    decreases l,
{
    match l {
        List::Nil => Seq::empty(),
        List::Cons(h, t) => seq![*h] + list_seq(t),
    }
}

/// How deep a walk follows a tree, a chain of names or a search before it gives
/// up on it: a step for each node, definition and variable there can be in each
/// file there can be.
pub const DEPTH_LIMIT: u64 = 0xffff_ffff_ffff_ffff;

/// `i + 1`, or `i` itself at the top of the range.
pub open spec fn succ_spec(i: u64) -> u64 {
    if i < u64::MAX { (i + 1) as u64 } else { i }
}

/// `i + 1`, or `i` itself at the top of the range.
pub fn succ(i: u64) -> (r: u64)
    ensures
        r == succ_spec(i),
{
    if i < u64::MAX { i + 1 } else { i }
}

/// [`single`], as a mathematical function.
pub open spec fn single_spec<T>(x: T) -> List<T> {
    List::Cons(x, Box::new(List::Nil))
}

/// The list of one element.
pub fn single<T>(x: T) -> (r: List<T>)
    ensures
        r == single_spec(x),
        r@ == seq![x],
{
    proof {
        reveal_with_fuel(list_seq, 2);
    }
    List::Cons(x, Box::new(List::Nil))
}

/// [`list2`], as a mathematical function.
pub open spec fn list2_spec<T>(x: T, y: T) -> List<T> {
    List::Cons(x, Box::new(List::Cons(y, Box::new(List::Nil))))
}

/// The list of two elements.
pub fn list2<T>(x: T, y: T) -> (r: List<T>)
    ensures
        r == list2_spec(x, y),
{
    List::Cons(x, Box::new(List::Cons(y, Box::new(List::Nil))))
}

/// [`list3`], as a mathematical function.
pub open spec fn list3_spec<T>(x: T, y: T, z: T) -> List<T> {
    List::Cons(x, Box::new(list2_spec(y, z)))
}

/// The list of three elements.
pub fn list3<T>(x: T, y: T, z: T) -> (r: List<T>)
    ensures
        r == list3_spec(x, y, z),
{
    List::Cons(x, Box::new(list2(y, z)))
}

/// [`list4`], as a mathematical function.
pub open spec fn list4_spec<T>(a: T, b: T, c: T, d: T) -> List<T> {
    List::Cons(a, Box::new(list3_spec(b, c, d)))
}

/// The list of four elements.
pub fn list4<T>(a: T, b: T, c: T, d: T) -> (r: List<T>)
    ensures
        r == list4_spec(a, b, c, d),
{
    List::Cons(a, Box::new(list3(b, c, d)))
}

/// [`list5`], as a mathematical function.
pub open spec fn list5_spec<T>(a: T, b: T, c: T, d: T, e: T) -> List<T> {
    List::Cons(a, Box::new(list4_spec(b, c, d, e)))
}

/// The list of five elements.
pub fn list5<T>(a: T, b: T, c: T, d: T, e: T) -> (r: List<T>)
    ensures
        r == list5_spec(a, b, c, d, e),
{
    List::Cons(a, Box::new(list4(b, c, d, e)))
}

/// [`list6`], as a mathematical function.
pub open spec fn list6_spec<T>(a: T, b: T, c: T, d: T, e: T, f: T) -> List<T> {
    List::Cons(a, Box::new(list5_spec(b, c, d, e, f)))
}

/// The list of six elements.
pub fn list6<T>(a: T, b: T, c: T, d: T, e: T, f: T) -> (r: List<T>)
    ensures
        r == list6_spec(a, b, c, d, e, f),
{
    List::Cons(a, Box::new(list5(b, c, d, e, f)))
}

/// [`list7`], as a mathematical function.
pub open spec fn list7_spec<T>(a: T, b: T, c: T, d: T, e: T, f: T, g: T) -> List<T> {
    List::Cons(a, Box::new(list6_spec(b, c, d, e, f, g)))
}

/// The list of seven elements.
pub fn list7<T>(a: T, b: T, c: T, d: T, e: T, f: T, g: T) -> (r: List<T>)
    ensures
        r == list7_spec(a, b, c, d, e, f, g),
{
    List::Cons(a, Box::new(list6(b, c, d, e, f, g)))
}

/// [`append`], as a mathematical function.
pub open spec fn append_spec<T>(a: List<T>, b: List<T>) -> List<T>
    decreases a,
{
    match a {
        List::Nil => b,
        List::Cons(h, t) => List::Cons(h, Box::new(append_spec(*t, b))),
    }
}

/// The elements of `a`, then those of `b`.
pub fn append<T>(a: List<T>, b: List<T>) -> (r: List<T>)
    ensures
        r == append_spec(a, b),
        r@ == a@ + b@,
    decreases a,
{
    match a {
        List::Nil => b,
        List::Cons(h, t) => List::Cons(h, Box::new(append(*t, b))),
    }
}

/// [`list_len`], as a mathematical function.
pub open spec fn list_len_spec<T>(l: &List<T>) -> u64
    decreases l,
{
    match l {
        List::Nil => 0,
        List::Cons(_, t) => succ_spec(list_len_spec(t)),
    }
}

/// How many elements a list holds, at most `u64::MAX`.
pub fn list_len<T>(l: &List<T>) -> (r: u64)
    ensures
        r == list_len_spec(l),
        l@.len() <= u64::MAX ==> r == l@.len(),
    decreases l,
{
    match l {
        List::Nil => 0,
        List::Cons(_, t) => succ(list_len(t)),
    }
}

/// [`nth`], as a mathematical function.
pub open spec fn nth_spec<T>(l: &List<T>, i: u64) -> Option<&T>
    decreases l,
{
    match l {
        List::Nil => None,
        List::Cons(h, t) => if i == 0 { Some(h) } else { nth_spec(t, (i - 1) as u64) },
    }
}

/// The element at position `i`, if the list is that long.
pub fn nth<T>(l: &List<T>, i: u64) -> (r: Option<&T>)
    ensures
        r == nth_spec(l, i),
        r == (if i < l@.len() { Some(&l@[i as int]) } else { None }),
    decreases l,
{
    match l {
        List::Nil => None,
        List::Cons(h, t) => if i == 0 { Some(h) } else { nth(t, i - 1) },
    }
}

/// [`is_empty`], as a mathematical function.
pub open spec fn is_empty_spec<T>(l: &List<T>) -> bool {
    match l {
        List::Nil => true,
        List::Cons(_, _) => false,
    }
}

/// Whether a list holds nothing.
pub fn is_empty<T>(l: &List<T>) -> (r: bool)
    ensures
        r == is_empty_spec(l),
        r == (l@.len() == 0),
{
    match l {
        List::Nil => true,
        List::Cons(_, _) => false,
    }
}

/// The list of a sequence's elements, in order.
pub open spec fn list_of_seq<T>(s: Seq<T>) -> List<T>
    decreases s.len(),
{
    if s.len() == 0 {
        List::Nil
    } else {
        List::Cons(s[0], Box::new(list_of_seq(s.subrange(1, s.len() as int))))
    }
}

/// The list of a vector's elements, in order.
pub fn list_of<T>(v: Vec<T>) -> (r: List<T>)
    ensures
        r@ == v@,
        r == list_of_seq(v@),
{
    let mut v = v;
    let ghost whole = v@;
    let mut acc: List<T> = List::Nil;
    while v.len() > 0
        invariant
            v@.len() <= whole.len(),
            v@ == whole.subrange(0, v@.len() as int),
            acc@ == whole.subrange(v@.len() as int, whole.len() as int),
            acc == list_of_seq(whole.subrange(v@.len() as int, whole.len() as int)),
        decreases v.len(),
    {
        let ghost tail = whole.subrange(v@.len() as int, whole.len() as int);
        match v.pop() {
            Some(x) => {
                acc = List::Cons(x, Box::new(acc));
                let ghost n = v@.len() as int;
                assert(whole.subrange(n, whole.len() as int) =~= seq![x] + tail);
                assert(whole.subrange(n, whole.len() as int).subrange(1, whole.len() - n) =~= tail);
                assert(v@ =~= whole.subrange(0, n));
            },
            None => {},
        }
    }
    assert(whole.subrange(0, whole.len() as int) =~= whole);
    acc
}

/// A vector of a list's elements, in order.
pub fn vec_of<T>(l: List<T>) -> (r: Vec<T>)
    ensures
        r@ == l@,
{
    let ghost whole = l@;
    let mut out: Vec<T> = Vec::new();
    let mut rest = l;
    loop
        invariant_except_break
            out@ + rest@ == whole,
        ensures
            out@ == whole,
        decreases rest,
    {
        match rest {
            List::Nil => {
                assert(out@ =~= whole);
                break;
            },
            List::Cons(h, t) => {
                out.push(h);
                rest = *t;
                assert(out@ + rest@ =~= whole);
            },
        }
    }
    out
}

} // verus!
