//! Names and text.

use vstd::prelude::*;

use crate::list::{append, single, List};

verus! {

/// Text, one character at a time.
pub type Text = List<char>;

/// A name. Two symbols are the same name exactly when their text is the same.
pub struct Symbol {
    pub text: List<char>,
}

/// The characters of a string, as text.
pub open spec fn text_of_seq(s: Seq<char>) -> List<char>
    decreases s.len(),
{
    if s.len() == 0 {
        List::Nil
    } else {
        List::Cons(s[0], Box::new(text_of_seq(s.subrange(1, s.len() as int))))
    }
}

/// [`text_of`], as a mathematical function.
pub open spec fn text_of_spec(s: &str) -> List<char> {
    text_of_seq(s@)
}

/// The text of a string slice.
pub fn text_of(s: &str) -> (r: List<char>)
    ensures
        r == text_of_spec(s),
{
    let n: usize = s.unicode_len();
    let mut i: usize = n;
    let mut acc: List<char> = List::Nil;
    while i > 0
        invariant
            i <= n,
            n == s@.len(),
            acc == text_of_seq(s@.subrange(i as int, n as int)),
        decreases i,
    {
        let ghost before = s@.subrange(i as int, n as int);
        i = i - 1;
        acc = List::Cons(s.get_char(i), Box::new(acc));
        assert(s@.subrange(i as int, n as int).subrange(1, n - i) =~= before);
    }
    assert(s@.subrange(0, n as int) =~= s@);
    acc
}

/// Text holds exactly the characters of the string it was made from.
pub proof fn text_of_holds_the_string(s: Seq<char>)
    ensures
        text_of_seq(s)@ == s,
    decreases s.len(),
{
    if s.len() > 0 {
        text_of_holds_the_string(s.subrange(1, s.len() as int));
        assert(seq![s[0]] + s.subrange(1, s.len() as int) =~= s);
    }
}

/// [`sym`], as a mathematical function.
pub open spec fn sym_spec(s: &str) -> Symbol {
    Symbol { text: text_of_spec(s) }
}

/// The symbol a string spells.
pub fn sym(s: &str) -> (r: Symbol)
    ensures
        r == sym_spec(s),
{
    Symbol { text: text_of(s) }
}

impl Symbol {
    /// The symbol a string spells.
    pub fn new(s: &str) -> (r: Symbol)
        ensures
            r == sym_spec(s),
            r.text@ == s@,
    {
        proof {
            text_of_holds_the_string(s@);
        }
        sym(s)
    }
}

/// A copy of some text.
pub fn dup_text(t: &List<char>) -> (r: List<char>)
    ensures
        r == *t,
    decreases t,
{
    match t {
        List::Nil => List::Nil,
        List::Cons(h, t) => List::Cons(*h, Box::new(dup_text(t))),
    }
}

/// A copy of a symbol.
pub fn dup_sym(s: &Symbol) -> (r: Symbol)
    ensures
        r == *s,
{
    Symbol { text: dup_text(&s.text) }
}

/// A copy of a list of symbols.
pub fn dup_syms(l: &List<Symbol>) -> (r: List<Symbol>)
    ensures
        r == *l,
    decreases l,
{
    match l {
        List::Nil => List::Nil,
        List::Cons(h, t) => List::Cons(dup_sym(h), Box::new(dup_syms(t))),
    }
}

/// [`text_eq`], as a mathematical function.
pub open spec fn text_eq_spec(a: &List<char>, b: &List<char>) -> bool {
    *a == *b
}

/// Whether two texts are the same.
pub fn text_eq(a: &List<char>, b: &List<char>) -> (r: bool)
    ensures
        r == text_eq_spec(a, b),
    decreases a,
{
    match a {
        List::Nil => match b {
            List::Nil => true,
            List::Cons(_, _) => false,
        },
        List::Cons(x, s) => match b {
            List::Nil => false,
            List::Cons(y, t) => *x == *y && text_eq(s, t),
        },
    }
}

/// [`sym_eq`], as a mathematical function.
pub open spec fn sym_eq_spec(a: &Symbol, b: &Symbol) -> bool {
    *a == *b
}

/// Whether two symbols are the same name.
pub fn sym_eq(a: &Symbol, b: &Symbol) -> (r: bool)
    ensures
        r == sym_eq_spec(a, b),
{
    text_eq(&a.text, &b.text)
}

/// [`sym_is`], as a mathematical function.
pub open spec fn sym_is_spec(a: &Symbol, s: &str) -> bool {
    *a == sym_spec(s)
}

/// Whether a symbol is the name a string spells.
pub fn sym_is(a: &Symbol, s: &str) -> (r: bool)
    ensures
        r == sym_is_spec(a, s),
{
    text_eq(&a.text, &text_of(s))
}

/// [`sym_in`], as a mathematical function.
pub open spec fn sym_in_spec(l: &List<Symbol>, s: &Symbol) -> bool
    decreases l,
{
    match l {
        List::Nil => false,
        List::Cons(h, t) => sym_eq_spec(h, s) || sym_in_spec(t, s),
    }
}

/// Whether a list holds a name.
pub fn sym_in(l: &List<Symbol>, s: &Symbol) -> (r: bool)
    ensures
        r == sym_in_spec(l, s),
        r == l@.contains(*s),
    decreases l,
{
    proof {
        crate::laws::names::taken_is_among(*l, *s);
    }
    match l {
        List::Nil => false,
        List::Cons(h, t) => sym_eq(h, s) || sym_in(t, s),
    }
}

/// [`text_before`], as a mathematical function.
pub open spec fn text_before_spec(a: &List<char>, b: &List<char>) -> bool
    decreases a,
{
    match (a, b) {
        (_, List::Nil) => false,
        (List::Nil, List::Cons(_, _)) => true,
        (List::Cons(x, s), List::Cons(y, t)) => *x < *y || (*x == *y && text_before_spec(s, t)),
    }
}

/// Whether `a` comes strictly before `b` in dictionary order.
pub fn text_before(a: &List<char>, b: &List<char>) -> (r: bool)
    ensures
        r == text_before_spec(a, b),
    decreases a,
{
    match (a, b) {
        (_, List::Nil) => false,
        (List::Nil, List::Cons(_, _)) => true,
        (List::Cons(x, s), List::Cons(y, t)) => *x < *y || (*x == *y && text_before(s, t)),
    }
}

/// [`digit_char`], as a mathematical function.
pub open spec fn digit_char_spec(d: u64) -> char {
    match d {
        0 => '0',
        1 => '1',
        2 => '2',
        3 => '3',
        4 => '4',
        5 => '5',
        6 => '6',
        7 => '7',
        8 => '8',
        _ => '9',
    }
}

/// The character of a decimal digit.
pub fn digit_char(d: u64) -> (r: char)
    ensures
        r == digit_char_spec(d),
{
    match d {
        0 => '0',
        1 => '1',
        2 => '2',
        3 => '3',
        4 => '4',
        5 => '5',
        6 => '6',
        7 => '7',
        8 => '8',
        _ => '9',
    }
}

/// [`decimal`], as a mathematical function.
pub open spec fn decimal_spec(n: u64) -> List<char>
    decreases n,
{
    if n < 10 {
        crate::list::single_spec(digit_char_spec(n))
    } else {
        crate::list::append_spec(
            decimal_spec((n / 10) as u64),
            crate::list::single_spec(digit_char_spec((n % 10) as u64)),
        )
    }
}

/// A number in decimal.
pub fn decimal(n: u64) -> (r: List<char>)
    ensures
        r == decimal_spec(n),
    decreases n,
{
    if n < 10 {
        single(digit_char(n))
    } else {
        append(decimal((n / 10) as u64), single(digit_char((n % 10) as u64)))
    }
}

/// [`index_sym`], as a mathematical function.
pub open spec fn index_sym_spec(n: u64) -> Symbol {
    Symbol { text: decimal_spec(n) }
}

/// The symbol a position is named by.
pub fn index_sym(n: u64) -> (r: Symbol)
    ensures
        r == index_sym_spec(n),
{
    Symbol { text: decimal(n) }
}

/// [`numbered_sym`], as a mathematical function.
pub open spec fn numbered_sym_spec(name: &Symbol, i: u64) -> Symbol {
    Symbol { text: crate::list::append_spec(name.text, List::Cons('#', Box::new(decimal_spec(i)))) }
}

/// `name#i`.
pub fn numbered_sym(name: &Symbol, i: u64) -> (r: Symbol)
    ensures
        r == numbered_sym_spec(name, i),
{
    Symbol { text: append(dup_text(&name.text), List::Cons('#', Box::new(decimal(i)))) }
}

} // verus!
