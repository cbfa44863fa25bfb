//! The body trail: the history of head samples, oldest first, and the rule
//! that trims it from the oldest end to fit a length budget.

use vstd::prelude::*;
use crate::segment::Segment;
use crate::units::MAX_SPEED;

verus! {

/// The length that a trail stands for: the sum of its segments' speeds.
pub open spec fn total_speed(s: Seq<Segment>) -> int
    decreases s.len(),
{
    if s.len() == 0 {
        0
    } else {
        total_speed(s.drop_last()) + s.last().speed
    }
}

/// Every segment's speed lies between standstill and the top speed.
pub open spec fn all_wf(s: Seq<Segment>) -> bool {
    forall|i: int| 0 <= i < s.len() ==> (#[trigger] s[i]).wf()
}

/// Every segment's position lies in the world.
pub open spec fn all_in_world(s: Seq<Segment>) -> bool {
    forall|i: int| 0 <= i < s.len() ==> (#[trigger] s[i]).in_world()
}

/// What is left of a trail after dropping oldest segments, one at a time, for as
/// long as the trail stands for more than `budget`.
pub open spec fn trail_kept(s: Seq<Segment>, budget: int) -> Seq<Segment>
    decreases s.len(),
{
    if s.len() > 0 && total_speed(s) > budget {
        trail_kept(s.drop_first(), budget)
    } else {
        s
    }
}

/// Appending a segment adds its speed to the trail's length.
pub proof fn lemma_total_speed_push(s: Seq<Segment>, x: Segment)
    ensures
        total_speed(s.push(x)) == total_speed(s) + x.speed,
{
    assert(s.push(x).drop_last() =~= s);
}

/// Dropping the oldest segment takes its speed off the trail's length.
pub proof fn lemma_total_speed_drop_first(s: Seq<Segment>)
    requires
        s.len() > 0,
    ensures
        total_speed(s.drop_first()) == total_speed(s) - s[0].speed,
    decreases s.len(),
{
    let rest = s.drop_first();
    if s.len() == 1 {
        assert(total_speed(s.drop_last()) == 0);
    } else {
        lemma_total_speed_drop_first(s.drop_last());
        assert(rest.drop_last() =~= s.drop_last().drop_first());
    }
}

/// A trail of valid segments stands for a length between nothing and the top
/// speed for each of its segments.
pub proof fn lemma_total_speed_bounds(s: Seq<Segment>)
    requires
        all_wf(s),
    ensures
        0 <= total_speed(s) <= s.len() * MAX_SPEED,
    decreases s.len(),
{
    if s.len() > 0 {
        lemma_total_speed_bounds(s.drop_last());
    }
}

/// Trimming evicts strictly from the oldest end: what is kept is the longest
/// run of newest segments that fits the budget. It is the trail without its
/// first `k` segments, it fits, and no shorter cut would have fitted.
pub proof fn lemma_trail_kept_is_longest_fitting_suffix(s: Seq<Segment>, budget: int)
    requires
        all_wf(s),
        0 <= budget,
    ensures
        trail_kept(s, budget).len() <= s.len(),
        trail_kept(s, budget) == s.skip(s.len() - trail_kept(s, budget).len()),
        total_speed(trail_kept(s, budget)) <= budget,
        forall|j: int|
            0 <= j < s.len() - trail_kept(s, budget).len() ==> total_speed(#[trigger] s.skip(j))
                > budget,
    decreases s.len(),
{
    if s.len() > 0 && total_speed(s) > budget {
        let rest = s.drop_first();
        assert(all_wf(rest));
        lemma_trail_kept_is_longest_fitting_suffix(rest, budget);
        let kept = trail_kept(s, budget);
        let k = s.len() - kept.len();
        assert(kept =~= s.skip(k));
        assert forall|j: int| 0 <= j < k implies total_speed(#[trigger] s.skip(j)) > budget by {
            if j == 0 {
                assert(s.skip(0) =~= s);
            } else {
                assert(rest.skip(j - 1) =~= s.skip(j));
            }
        }
    }
}

/// With no budget at all, a trail whose newest segment moves is trimmed to nothing.
pub proof fn lemma_trail_empties_on_no_budget(s: Seq<Segment>)
    requires
        all_wf(s),
        s.len() > 0,
        s.last().speed > 0,
    ensures
        trail_kept(s, 0).len() == 0,
{
    let kept = trail_kept(s, 0);
    lemma_trail_kept_is_longest_fitting_suffix(s, 0);
    if kept.len() > 0 {
        assert(all_wf(kept.drop_last()));
        lemma_total_speed_bounds(kept.drop_last());
    }
}

} // verus!
