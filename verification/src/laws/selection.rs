//! Laws of selection: the most specific candidate wins, and a tie is one.

use vstd::prelude::*;

use crate::def::ImplInfo;
use crate::solve::{Best, Choice};

verus! {

/// What weighing candidates one after the other comes to.
pub open spec fn weighed(s: Seq<(u64, Choice)>) -> Option<Best>
    decreases s.len(),
{
    if s.len() == 0 {
        None
    } else {
        crate::solve::consider_spec(weighed(s.drop_last()), s.last().0, s.last().1)
    }
}

/// Whether a candidate is the first of those with the highest score.
pub open spec fn first_of_the_best(s: Seq<(u64, Choice)>, i: int) -> bool {
    &&& 0 <= i < s.len()
    &&& forall|j: int| 0 <= j < s.len() ==> (#[trigger] s[j]).0 <= s[i].0
    &&& forall|j: int| 0 <= j < i ==> (#[trigger] s[j]).0 < s[i].0
}

/// Whether a later candidate has the score of another.
pub open spec fn matched_later(s: Seq<(u64, Choice)>, i: int) -> bool {
    exists|j: int| i < j < s.len() && (#[trigger] s[j]).0 == s[i].0
}

/// Of some candidates the first of those with the highest score is chosen, and it
/// is a tie exactly when another has that score too.
pub proof fn the_most_specific_wins(s: Seq<(u64, Choice)>) -> (i: int)
    requires
        s.len() > 0,
    ensures
        first_of_the_best(s, i),
        weighed(s) == Some(Best { score: s[i].0, choice: s[i].1, tied: matched_later(s, i) }),
    decreases s.len(),
{
    let front = s.drop_last();
    let n = s.len() - 1;
    if front.len() == 0 {
        assert(weighed(front) is None);
        assert(!matched_later(s, 0));
        0
    } else {
        let i = the_most_specific_wins(front);
        assert(front[i] == s[i]);
        assert forall|j: int| 0 <= j < n implies #[trigger] s[j] == front[j] by {}
        if s[i].0 < s.last().0 {
            assert forall|j: int| 0 <= j < n implies (#[trigger] s[j]).0 < s[n].0 by {
                assert(front[j].0 <= front[i].0);
            }
            assert(!matched_later(s, n));
            n
        } else {
            if s[i].0 == s.last().0 {
                assert(s[n].0 == s[i].0);
                assert(matched_later(s, i));
            } else if matched_later(s, i) {
                let j = choose|j: int| i < j < s.len() && (#[trigger] s[j]).0 == s[i].0;
                assert(front[j].0 == front[i].0);
                assert(matched_later(front, i));
            }
            if matched_later(front, i) {
                let j = choose|j: int| i < j < front.len() && (#[trigger] front[j]).0 == front[i].0;
                assert(s[j].0 == s[i].0);
                assert(matched_later(s, i));
            }
            assert forall|j: int| 0 <= j < s.len() implies (#[trigger] s[j]).0 <= s[i].0 by {
                if j < n {
                    assert(front[j].0 <= front[i].0);
                }
            }
            assert forall|j: int| 0 <= j < i implies (#[trigger] s[j]).0 < s[i].0 by {
                assert(front[j].0 < front[i].0);
            }
            i
        }
    }
}

/// A type's own method is not something a trait can take over, and a concrete
/// target beats a blanket one.
pub proof fn inherent_beats_trait_and_concrete_beats_blanket(a: ImplInfo, b: ImplInfo)
    ensures
        a.trait_def is None && b.trait_def is Some ==> crate::exprs::impl_score_spec(&a) > crate::exprs::impl_score_spec(
            &b,
        ),
        (a.trait_def is None) == (b.trait_def is None) && !a.self_is_generic && b.self_is_generic
            ==> crate::exprs::impl_score_spec(&a) > crate::exprs::impl_score_spec(&b),
{
}

} // verus!
