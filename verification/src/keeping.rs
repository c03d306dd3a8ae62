//! What every step of inference keeps.

use vstd::prelude::*;

use crate::diag::Diagnostic;
use crate::list::List;
use crate::unify::{InfererV, LoopFrame};

verus! {

/// What every step of inference keeps: it ends in the file, the function, the
/// loops and the expansions it began in, what it said before stays said, the
/// types literals settle on stay what they are, what was given up on stays given
/// up, and variables are only ever handed out upwards. What a `return` yields, and
/// the types and tags recorded for good, are untouched.
#[verifier::opaque]
pub open spec fn kept(old_st: InfererV, new_st: InfererV) -> bool {
    &&& kept_but_types(old_st, new_st)
    &&& old_st.ret == new_st.ret
    &&& old_st.facts.ty == new_st.facts.ty
    &&& old_st.facts.variant_tag == new_st.facts.variant_tag
}

/// The same, but for what a `return` yields and what is recorded for good.
pub open spec fn kept_but_types(old_st: InfererV, new_st: InfererV) -> bool {
    &&& old_st.file == new_st.file
    &&& old_st.ctx == new_st.ctx
    &&& old_st.func == new_st.func
    &&& old_st.in_default == new_st.in_default
    &&& old_st.packaged == new_st.packaged
    &&& old_st.alias_stack == new_st.alias_stack
    &&& old_st.const_stack == new_st.const_stack
    &&& old_st.distincts == new_st.distincts
    &&& old_st.str_ty == new_st.str_ty
    &&& old_st.ptr_ints == new_st.ptr_ints
    &&& old_st.deep ==> new_st.deep
    &&& old_st.next_var <= new_st.next_var
    &&& old_st.next_const <= new_st.next_const
    &&& loops_stand(old_st.breaks, new_st.breaks)
    &&& said_still(old_st.diags, new_st.diags)
}

/// Whether the loops around are still those they were: each yields what it did,
/// and one that could be left still can.
#[verifier::opaque]
pub open spec fn loops_stand(before: List<LoopFrame>, after: List<LoopFrame>) -> bool
    decreases before,
{
    match (before, after) {
        (List::Nil, List::Nil) => true,
        (List::Cons(f, s), List::Cons(g, t)) => {
            &&& f.ty == g.ty
            &&& f.broke ==> g.broke
            &&& loops_stand(*s, *t)
        },
        _ => false,
    }
}

/// Loops nothing happened to stand.
pub broadcast proof fn loops_stand_still(l: List<LoopFrame>)
    ensures
        #[trigger] loops_stand(l, l),
    decreases l,
{
    reveal(loops_stand);
    match l {
        List::Nil => {},
        List::Cons(_, t) => loops_stand_still(*t),
    }
}

/// Loops that stand one step and the next stand both.
pub broadcast proof fn loops_stand_on(a: List<LoopFrame>, b: List<LoopFrame>, c: List<LoopFrame>)
    requires
        #[trigger] loops_stand(a, b),
        #[trigger] loops_stand(b, c),
    ensures
        loops_stand(a, c),
    decreases a,
{
    reveal(loops_stand);
    match (a, b, c) {
        (List::Cons(_, s), List::Cons(_, t), List::Cons(_, u)) => loops_stand_on(*s, *t, *u),
        _ => {},
    }
}

/// The loops around one that was gone into stand when those within it do, and
/// it yields what it did.
pub proof fn the_loops_around_stand(l: List<LoopFrame>, f: LoopFrame, after: List<LoopFrame>)
    requires
        loops_stand(List::Cons(f, Box::new(l)), after),
    ensures
        match after {
            List::Nil => false,
            List::Cons(g, t) => g.ty == f.ty && loops_stand(l, *t),
        },
{
    reveal(loops_stand);
}

/// Whether what was said before is still said, in the same order.
pub open spec fn said_still(before: Seq<Diagnostic>, after: Seq<Diagnostic>) -> bool {
    &&& before.len() <= after.len()
    &&& forall|i: int| 0 <= i < before.len() ==> #[trigger] before[i] == after[i]
}

/// Doing nothing keeps everything.
pub broadcast proof fn kept_by_nothing(st: InfererV)
    ensures
        #[trigger] kept(st, st),
{
    reveal(kept);
    loops_stand_still(st.breaks);
}

/// What two steps each keep, the two together keep.
pub broadcast proof fn kept_by_both(a: InfererV, b: InfererV, c: InfererV)
    requires
        #[trigger] kept(a, b),
        #[trigger] kept(b, c),
    ensures
        kept(a, c),
{
    reveal(kept);
    loops_stand_on(a.breaks, b.breaks, c.breaks);
}

} // verus!
