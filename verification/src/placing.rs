//! What every step of lowering keeps, and which lowered nodes have a place.

use vstd::prelude::*;

use crate::ids::FileId;
use crate::ir::Expr;
use crate::list::List;
use crate::lower::{ClosureCx, LowererV};

verus! {

/// Whether an id has a place, or is one of those that none is recorded for.
#[verifier::opaque]
pub open spec fn known(st: LowererV, id: u64) -> bool {
    st.meta.spans.dom().contains(id) || st.unplaced.contains(id)
}

/// Whether every expression of a list is known.
pub open spec fn all_known(st: LowererV, l: List<Expr>) -> bool
    decreases l,
{
    match l {
        List::Nil => true,
        List::Cons(h, t) => known(st, h.id.0) && all_known(st, *t),
    }
}

/// What every step of lowering keeps: ids are handed out upwards, each of them with
/// a place or as one of those that none is recorded for, unless a walk gave up. No
/// place is lost. It ends in the file and the closures it began in.
#[verifier::opaque]
pub open spec fn kept(old_st: LowererV, new_st: LowererV) -> bool {
    &&& old_st.meta.next <= new_st.meta.next
    &&& old_st.deep ==> new_st.deep
    &&& old_st.file == new_st.file
    &&& old_st.closures == new_st.closures
    &&& forall|k: u64| #[trigger] known(old_st, k) ==> known(new_st, k)
    &&& new_st.deep || forall|k: u64|
        old_st.meta.next <= k < new_st.meta.next ==> #[trigger] known(new_st, k)
}

/// Doing nothing keeps everything.
pub broadcast proof fn kept_by_nothing(st: LowererV)
    ensures
        #[trigger] kept(st, st),
{
    reveal(kept);
}

/// What two steps each keep, the two together keep.
pub broadcast proof fn kept_by_both(a: LowererV, b: LowererV, c: LowererV)
    requires
        #[trigger] kept(a, b),
        #[trigger] kept(b, c),
    ensures
        kept(a, c),
{
    reveal(kept);
    if !c.deep {
        assert forall|k: u64| a.meta.next <= k < c.meta.next implies #[trigger] known(c, k) by {
            if k < b.meta.next {
                assert(known(b, k));
            }
        }
    }
}

/// What is known stays known.
pub broadcast proof fn known_stays(a: LowererV, b: LowererV, k: u64)
    requires
        #[trigger] kept(a, b),
        #[trigger] known(a, k),
    ensures
        known(b, k),
{
    reveal(kept);
}

/// The same of every expression of a list.
pub broadcast proof fn all_known_stay(a: LowererV, b: LowererV, l: List<Expr>)
    requires
        #[trigger] kept(a, b),
        #[trigger] all_known(a, l),
    ensures
        all_known(b, l),
    decreases l,
{
    match l {
        List::Nil => {},
        List::Cons(h, t) => {
            known_stays(a, b, h.id.0);
            all_known_stay(a, b, *t);
        },
    }
}

/// A walk that gave up stays given up, and a step ends in the file it began in.
pub broadcast proof fn deep_stays(a: LowererV, b: LowererV)
    requires
        #[trigger] kept(a, b),
    ensures
        a.deep ==> b.deep,
        a.file == b.file,
{
    reveal(kept);
}

/// What is kept in another file is kept once back in this one.
pub proof fn kept_in_another_file(a: LowererV, file: FileId, b: LowererV)
    requires
        kept(LowererV { file: file, ..a }, b),
    ensures
        kept(a, LowererV { file: a.file, ..b }),
{
    reveal(kept);
    reveal(known);
    let there = LowererV { file: file, ..a };
    let back = LowererV { file: a.file, ..b };
    assert(forall|k: u64| known(a, k) == #[trigger] known(there, k));
    assert(forall|k: u64| known(b, k) == #[trigger] known(back, k));
    assert forall|k: u64| #[trigger] known(a, k) implies known(back, k) by {
        assert(known(there, k));
        assert(known(b, k));
    }
    if !b.deep {
        assert forall|k: u64| a.meta.next <= k < b.meta.next implies #[trigger] known(back, k) by {
            assert(known(b, k));
        }
    }
}

/// What is kept inside a closure is kept once out of it, and what is known there is
/// known outside.
pub proof fn kept_around_a_closure(a: LowererV, c: ClosureCx, b: LowererV)
    requires
        kept(crate::lower::enter_closure_spec(a, c), b),
    ensures
        kept(a, crate::lower::leave_closure_spec(b)),
        forall|k: u64| known(b, k) ==> #[trigger] known(crate::lower::leave_closure_spec(b), k),
{
    reveal(kept);
    reveal(known);
    let there = crate::lower::enter_closure_spec(a, c);
    let back = crate::lower::leave_closure_spec(b);
    assert(forall|k: u64| known(a, k) == #[trigger] known(there, k));
    assert(forall|k: u64| known(b, k) == #[trigger] known(back, k));
    assert forall|k: u64| #[trigger] known(a, k) implies known(back, k) by {
        assert(known(there, k));
        assert(known(b, k));
    }
    if !b.deep {
        assert forall|k: u64| a.meta.next <= k < b.meta.next implies #[trigger] known(back, k) by {
            assert(known(b, k));
        }
    }
}

/// A list of one expression is known where that is.
pub broadcast proof fn one_known(st: LowererV, e: Expr)
    ensures
        #[trigger] all_known(st, crate::list::single_spec(e)) == known(st, e.id.0),
{
    reveal_with_fuel(all_known, 2);
}

/// A list of two expressions is known where both are.
pub broadcast proof fn two_known(st: LowererV, e: Expr, f: Expr)
    ensures
        #[trigger] all_known(st, crate::list::list2_spec(e, f)) == (known(st, e.id.0) && known(st, f.id.0)),
{
    reveal_with_fuel(all_known, 3);
}

/// Taking away what was lifted keeps everything.
pub proof fn kept_without_what_was_lifted(a: LowererV, b: LowererV)
    requires
        b == (LowererV { lifted: b.lifted, lifted_types: b.lifted_types, ..a }),
    ensures
        kept(a, b),
{
    reveal(kept);
    reveal(known);
}

/// Where no walk gave up, every id handed out has a place or is one of those that
/// none is recorded for.
pub proof fn every_id_is_known(a: LowererV, b: LowererV)
    requires
        kept(a, b),
    ensures
        a.meta.next <= b.meta.next,
        !b.deep ==> forall|k: u64|
            a.meta.next <= k < b.meta.next ==> #[trigger] b.meta.spans.dom().contains(k)
                || b.unplaced.contains(k),
{
    reveal(kept);
    reveal(known);
    if !b.deep {
        assert forall|k: u64| a.meta.next <= k < b.meta.next implies #[trigger] b.meta.spans.dom().contains(k)
            || b.unplaced.contains(k) by {
            assert(known(b, k));
        }
    }
}

} // verus!
