//! Laws of names made up for members.

use vstd::prelude::*;

use crate::laws::calls::length_counts;
use crate::laws::generics::appending_keeps_both;
use crate::list::List;
use crate::symbol::Symbol;

verus! {

/// The number a run of decimal digits spells.
pub open spec fn number_of(s: Seq<char>) -> nat
    decreases s.len(),
{
    if s.len() == 0 {
        0
    } else {
        number_of(s.drop_last()) * 10 + digit_value(s.last())
    }
}

/// What a decimal digit is worth.
pub open spec fn digit_value(c: char) -> nat {
    match crate::subst::digit_of_spec(c) {
        Some(d) => d as nat,
        None => 0,
    }
}

/// A number written in decimal spells that number.
pub proof fn decimal_spells_the_number(n: u64)
    ensures
        number_of(crate::symbol::decimal_spec(n)@) == n,
        crate::symbol::decimal_spec(n)@.len() > 0,
    decreases n,
{
    reveal_with_fuel(crate::list::list_seq, 2);
    let d = crate::symbol::digit_char_spec((n % 10) as u64);
    let last = crate::list::single_spec(d);
    assert(last@ =~= seq![d]);
    if n < 10 {
        let s = crate::symbol::decimal_spec(n)@;
        assert(s =~= seq![d]);
        assert(s.drop_last() =~= Seq::<char>::empty());
        assert(number_of(s.drop_last()) == 0);
    } else {
        let front = crate::symbol::decimal_spec((n / 10) as u64);
        decimal_spells_the_number((n / 10) as u64);
        appending_keeps_both(front, last);
        let s = crate::symbol::decimal_spec(n)@;
        assert(s =~= front@ + seq![d]);
        assert(s.drop_last() =~= front@);
    }
}

/// The member name tried at a turn.
pub open spec fn candidate(name: Symbol, i: u64) -> Symbol {
    if i == 0 { name } else { crate::symbol::numbered_sym_spec(&name, i) }
}

proof fn candidates_differ(name: Symbol, i: u64, j: u64)
    requires
        i != j,
    ensures
        candidate(name, i) != candidate(name, j),
{
    let t = name.text;
    if i > 0 {
        let tail = List::Cons('#', Box::new(crate::symbol::decimal_spec(i)));
        appending_keeps_both(t, tail);
        decimal_spells_the_number(i);
        assert(tail@ =~= seq!['#'] + crate::symbol::decimal_spec(i)@);
    }
    if j > 0 {
        let tail = List::Cons('#', Box::new(crate::symbol::decimal_spec(j)));
        appending_keeps_both(t, tail);
        decimal_spells_the_number(j);
        assert(tail@ =~= seq!['#'] + crate::symbol::decimal_spec(j)@);
    }
    if candidate(name, i) == candidate(name, j) {
        let a = candidate(name, i).text@;
        let n = t@.len() as int;
        if i > 0 && j > 0 {
            assert(a.subrange(n + 1, a.len() as int) =~= crate::symbol::decimal_spec(i)@);
            assert(a.subrange(n + 1, a.len() as int) =~= crate::symbol::decimal_spec(j)@);
        } else {
            assert(candidate(name, 0).text@.len() == n);
        }
    }
}

/// A list holds a name exactly when it is among its elements.
pub proof fn taken_is_among(taken: List<Symbol>, n: Symbol)
    ensures
        crate::symbol::sym_in_spec(&taken, &n) <==> taken@.contains(n),
    decreases taken,
{
    match taken {
        List::Nil => {},
        List::Cons(h, t) => {
            taken_is_among(*t, n);
            let s = taken@;
            assert(s =~= seq![h] + t@);
            if crate::symbol::sym_in_spec(&taken, &n) {
                if h == n {
                    assert(s[0] == n);
                } else {
                    let i = choose|i: int| 0 <= i < t@.len() && t@[i] == n;
                    assert(s[i + 1] == n);
                }
            }
            if s.contains(n) {
                let i = choose|i: int| 0 <= i < s.len() && s[i] == n;
                if i > 0 {
                    assert(t@[i - 1] == n);
                }
            }
        },
    }
}

proof fn a_taken_answer_means_all_are_taken(name: Symbol, taken: List<Symbol>, i: u64, tries: u64, k: u64)
    requires
        i + tries < u64::MAX,
        i <= k <= i + tries,
        crate::symbol::sym_in_spec(&taken, &crate::lower::member_name_spec(&name, &taken, i, tries)),
    ensures
        crate::symbol::sym_in_spec(&taken, &candidate(name, k)),
    decreases tries,
{
    if k > i {
        a_taken_answer_means_all_are_taken(name, taken, (i + 1) as u64, (tries - 1) as u64, k);
    } else if tries > 0 && !crate::symbol::sym_in_spec(&taken, &candidate(name, i)) {
    }
}

/// The name a captured value is given is taken by no other member.
pub proof fn a_new_member_name_is_free(name: Symbol, taken: List<Symbol>)
    requires
        taken@.len() < u64::MAX - 1,
    ensures
        !crate::symbol::sym_in_spec(
            &taken,
            &crate::lower::member_name_spec(&name, &taken, 0, crate::list::list_len_spec(&taken)),
        ),
{
    length_counts(taken);
    let tries = crate::list::list_len_spec(&taken);
    if crate::symbol::sym_in_spec(&taken, &crate::lower::member_name_spec(&name, &taken, 0, tries)) {
        // One more name was tried than there are names taken, and all of them
        // were.
        let tried = Seq::new((tries + 1) as nat, |k: int| candidate(name, k as u64));
        assert(tried.no_duplicates()) by {
            assert forall|a: int, b: int| 0 <= a < tried.len() && 0 <= b < tried.len() && a != b implies tried[a]
                != tried[b] by {
                candidates_differ(name, a as u64, b as u64);
            }
        }
        assert forall|x: Symbol| tried.to_set().contains(x) implies taken@.to_set().contains(x) by {
            let a = choose|a: int| 0 <= a < tried.len() && tried[a] == x;
            a_taken_answer_means_all_are_taken(name, taken, 0, tries, a as u64);
            taken_is_among(taken, x);
        }
        assert(tried.to_set().subset_of(taken@.to_set()));
        tried.unique_seq_to_set();
        taken@.lemma_cardinality_of_set();
        vstd::set_lib::lemma_len_subset(tried.to_set(), taken@.to_set());
    }
}

} // verus!
