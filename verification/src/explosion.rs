//! The burst of particles that a snake leaves when it runs into itself, and
//! the clock that plays each particle's animation.

use vstd::prelude::*;
use crate::geometry::Point;
use crate::random::random_u32;
use crate::segment::Segment;
use crate::trail::all_in_world;
use crate::units::{DRAW_RANGE, POP_JITTER, POP_MAX_DELAY, POP_ODDS, POP_SPAN};

verus! {

/// One particle: where it is drawn and how many steps after the burst it starts.
#[derive(Clone, Copy, PartialEq, Eq, Structural, Debug)]
pub struct Pop {
    pub pos: Point,
    pub delay: u32,
}

/// The random draws that decide what becomes of one trail segment in a burst:
/// whether it turns into a particle, how far the particle is thrown on each
/// axis, and when it starts. The last three count only where the first selects.
#[derive(Clone, Copy, PartialEq, Eq, Structural, Debug)]
pub struct PopDraw {
    pub pick: u32,
    pub jitter_x: u32,
    pub jitter_y: u32,
    pub delay: u32,
}

/// A draw selects its segment when it is a multiple of `POP_ODDS`.
pub open spec fn spec_selects(pick: u32) -> bool {
    pick % POP_ODDS < 1
}

/// The throw that a draw stands for: the draw, as a fraction of `DRAW_RANGE`,
/// of the way from `-POP_JITTER` to `POP_JITTER`, rounded down.
pub open spec fn spec_jitter(draw: u32) -> int {
    (draw as int * POP_JITTER * 2) / (DRAW_RANGE as int) - POP_JITTER
}

/// The particle that the draws make of a segment.
pub open spec fn spec_scatter(seg: Segment, draw: PopDraw) -> Pop {
    Pop {
        pos: Point {
            x: (seg.pos.x + spec_jitter(draw.jitter_x)) as i64,
            y: (seg.pos.y + spec_jitter(draw.jitter_y)) as i64,
        },
        delay: draw.delay % POP_MAX_DELAY,
    }
}

/// The particles that a trail bursts into, given one set of draws per
/// segment: the selected segments' particles, in the trail's order.
pub open spec fn spec_burst(segments: Seq<Segment>, draws: Seq<PopDraw>) -> Seq<Pop>
    decreases segments.len(),
{
    if segments.len() == 0 {
        Seq::empty()
    } else {
        let rest = spec_burst(segments.drop_last(), draws.drop_last());
        if spec_selects(draws.last().pick) {
            rest.push(spec_scatter(segments.last(), draws.last()))
        } else {
            rest
        }
    }
}

/// Some draws, one set per segment, burst the trail into these particles.
pub open spec fn burst_of(pops: Seq<Pop>, segments: Seq<Segment>) -> bool {
    exists|draws: Seq<PopDraw>|
        draws.len() == segments.len() && pops == #[trigger] spec_burst(segments, draws)
}

/// The picture of its animation that a particle shows at `step`, if any. A
/// particle with delay `d` plays from step `d` up to, not including, step
/// `d + POP_SPAN`, and goes through the `frames` pictures at an even pace.
pub open spec fn spec_frame(step: u64, delay: u32, frames: u32) -> Option<u32> {
    if delay <= step < delay + POP_SPAN && frames > 0 {
        Some(((step - delay) * frames / (POP_SPAN as int)) as u32)
    } else {
        None
    }
}

/// Whether a draw selects its segment.
pub fn selects(pick: u32) -> (chosen: bool)
    ensures
        chosen == spec_selects(pick),
{
    pick % POP_ODDS < 1
}

/// The throw that a draw stands for.
pub fn jitter(draw: u32) -> (j: i64)
    ensures
        j == spec_jitter(draw),
        -POP_JITTER <= j < POP_JITTER,
{
    let product: i64 = draw as i64 * POP_JITTER * 2;
    product / (DRAW_RANGE as i64) - POP_JITTER
}

impl Pop {
    /// The particle that the draws make of a segment.
    pub fn scatter(seg: &Segment, draw: &PopDraw) -> (pop: Pop)
        requires
            seg.in_world(),
        ensures
            pop == spec_scatter(*seg, *draw),
            pop.pos.x == seg.pos.x + spec_jitter(draw.jitter_x),
            pop.pos.y == seg.pos.y + spec_jitter(draw.jitter_y),
            pop.delay == draw.delay % POP_MAX_DELAY,
    {
        Pop {
            pos: Point::new(seg.pos.x + jitter(draw.jitter_x), seg.pos.y + jitter(draw.jitter_y)),
            delay: draw.delay % POP_MAX_DELAY,
        }
    }

    /// The picture that this particle shows at `step` of an animation of
    /// `frames` pictures, or nothing before it starts and after it ends.
    pub fn frame(&self, step: u64, frames: u32) -> (shown: Option<u32>)
        ensures
            shown == spec_frame(step, self.delay, frames),
            frames > 0 ==> (shown is Some <==> self.delay <= step < self.delay + POP_SPAN),
            shown matches Some(f) ==> f == (step - self.delay) * frames / (POP_SPAN as int) && f
                < frames,
    {
        let delay: u64 = self.delay as u64;
        if frames > 0 && delay <= step && step - delay < POP_SPAN {
            let played: u64 = step - delay;
            assert(played * (frames as u64) <= 59 * 0xffff_ffff) by (nonlinear_arith)
                requires
                    0 <= played <= 59,
                    0 <= frames <= 0xffff_ffff,
            ;
            proof {
                lemma_share_bounds(played as int, frames as int);
            }
            let shown: u64 = played * (frames as u64) / POP_SPAN;
            Some(shown as u32)
        } else {
            None
        }
    }
}

/// What an explosion is, as a mathematical value.
pub struct ExplosionView {
    pub pops: Seq<Pop>,
    pub step: u64,
    pub frame_count: u32,
}

/// A burst of particles, the number of steps since the burst, and the number
/// of pictures in each particle's animation.
#[derive(Debug)]
pub struct Explosion {
    pub pops: Vec<Pop>,
    pub step: u64,
    pub frame_count: u32,
}

impl View for Explosion {
    type V = ExplosionView;

    open spec fn view(&self) -> ExplosionView {
        ExplosionView { pops: self.pops@, step: self.step, frame_count: self.frame_count }
    }
}

impl Explosion {
    /// Bursts a trail into particles with the given draws, one set per segment.
    pub fn from_draws(segments: &Vec<Segment>, draws: &Vec<PopDraw>, frame_count: u32) -> (e:
        Explosion)
        requires
            draws@.len() == segments@.len(),
            all_in_world(segments@),
        ensures
            e.pops@ == spec_burst(segments@, draws@),
            e.step == 0,
            e.frame_count == frame_count,
    {
        let n: usize = segments.len();
        let mut pops: Vec<Pop> = Vec::new();
        let mut i: usize = 0;
        while i < n
            invariant
                n == segments@.len(),
                n == draws@.len(),
                i <= n,
                all_in_world(segments@),
                pops@ == spec_burst(segments@.take(i as int), draws@.take(i as int)),
            decreases n - i,
        {
            proof {
                assert(segments@.take(i + 1).drop_last() =~= segments@.take(i as int));
                assert(draws@.take(i + 1).drop_last() =~= draws@.take(i as int));
            }
            if selects(draws[i].pick) {
                pops.push(Pop::scatter(&segments[i], &draws[i]));
            }
            i = i + 1;
        }
        proof {
            assert(segments@.take(n as int) =~= segments@);
            assert(draws@.take(n as int) =~= draws@);
        }
        Explosion { pops, step: 0, frame_count }
    }

    /// Bursts a trail into particles at random: each segment is selected with
    /// odds of one in `POP_ODDS`, and each selected segment's particle is
    /// thrown and delayed by three more draws.
    pub fn new(segments: &Vec<Segment>, frame_count: u32) -> (e: Explosion)
        requires
            all_in_world(segments@),
        ensures
            burst_of(e.pops@, segments@),
            e.step == 0,
            e.frame_count == frame_count,
    {
        let n: usize = segments.len();
        let mut draws: Vec<PopDraw> = Vec::new();
        let mut i: usize = 0;
        while i < n
            invariant
                i <= n,
                draws@.len() == i,
            decreases n - i,
        {
            let pick: u32 = random_u32();
            let draw: PopDraw = if selects(pick) {
                PopDraw {
                    pick,
                    jitter_x: random_u32(),
                    jitter_y: random_u32(),
                    delay: random_u32(),
                }
            } else {
                PopDraw { pick, jitter_x: 0, jitter_y: 0, delay: 0 }
            };
            draws.push(draw);
            i = i + 1;
        }
        let e = Explosion::from_draws(segments, &draws, frame_count);
        e
    }

    /// Advances the clock by one step.
    pub fn update(&mut self)
        requires
            old(self).step < u64::MAX,
        ensures
            final(self).step == old(self).step + 1,
            final(self).pops == old(self).pops,
            final(self).frame_count == old(self).frame_count,
    {
        self.step = self.step + 1;
    }

    /// For each particle, in order, the picture that it shows now, if any.
    pub fn frames(&self) -> (shown: Vec<Option<u32>>)
        ensures
            shown@.len() == self.pops@.len(),
            forall|i: int|
                0 <= i < shown@.len() ==> shown@[i] == spec_frame(
                    self.step,
                    (#[trigger] self.pops@[i]).delay,
                    self.frame_count,
                ),
    {
        let n: usize = self.pops.len();
        let mut shown: Vec<Option<u32>> = Vec::new();
        let mut i: usize = 0;
        while i < n
            invariant
                n == self.pops@.len(),
                i <= n,
                shown@.len() == i,
                forall|j: int|
                    0 <= j < i ==> shown@[j] == spec_frame(
                        self.step,
                        (#[trigger] self.pops@[j]).delay,
                        self.frame_count,
                    ),
            decreases n - i,
        {
            shown.push(self.pops[i].frame(self.step, self.frame_count));
            i = i + 1;
        }
        shown
    }
}

/// A particle shows a picture exactly from its delay on for `POP_SPAN` steps;
/// the picture is the share of the animation played so far, rounded down, and
/// it is one of the animation's pictures.
pub proof fn lemma_frame_gating(step: u64, delay: u32, frames: u32)
    requires
        frames > 0,
    ensures
        spec_frame(step, delay, frames) is Some <==> delay <= step < delay + POP_SPAN,
        spec_frame(step, delay, frames) matches Some(f) ==> f == (step - delay) * frames / (
        POP_SPAN as int) && 0 <= f < frames,
{
    if delay <= step < delay + POP_SPAN {
        lemma_share_bounds((step - delay) as int, frames as int);
    }
}

/// While a particle plays, a later step never shows an earlier picture, and a
/// step later by at least one picture's share of the animation shows a later one.
pub proof fn lemma_frame_advances(earlier: u64, later: u64, delay: u32, frames: u32)
    requires
        frames > 0,
        delay <= earlier <= later < delay + POP_SPAN,
    ensures
        spec_frame(earlier, delay, frames)->0 <= spec_frame(later, delay, frames)->0,
        (later - earlier) * frames >= POP_SPAN ==> spec_frame(earlier, delay, frames)->0
            < spec_frame(later, delay, frames)->0,
{
    let a = (earlier - delay) as int;
    let b = (later - delay) as int;
    let n = frames as int;
    lemma_share_bounds(b, n);
    assert(a * n <= b * n) by (nonlinear_arith)
        requires
            a <= b,
            n > 0,
    ;
    assert(b * n - a * n == (later - earlier) * frames) by (nonlinear_arith)
        requires
            a == earlier - delay,
            b == later - delay,
            n == frames,
    ;
}

/// The share of the animation played within its span is one of its pictures.
proof fn lemma_share_bounds(played: int, frames: int)
    requires
        0 <= played < POP_SPAN,
        frames > 0,
    ensures
        0 <= played * frames / (POP_SPAN as int) < frames,
{
    assert(0 <= played * frames < POP_SPAN * frames) by (nonlinear_arith)
        requires
            0 <= played < POP_SPAN,
            frames > 0,
    ;
}

/// A particle lies within the farthest throw of a segment on both axes and
/// starts within the longest delay.
pub open spec fn thrown_from(pop: Pop, seg: Segment) -> bool {
    &&& seg.pos.x - POP_JITTER <= pop.pos.x < seg.pos.x + POP_JITTER
    &&& seg.pos.y - POP_JITTER <= pop.pos.y < seg.pos.y + POP_JITTER
    &&& pop.delay < POP_MAX_DELAY
}

/// A particle is thrown from some segment of the trail.
pub open spec fn thrown_from_trail(pop: Pop, segments: Seq<Segment>) -> bool {
    exists|i: int| 0 <= i < segments.len() && thrown_from(pop, #[trigger] segments[i])
}

/// Whatever the draws, a burst has no more particles than the trail has
/// segments, and each particle is thrown from one of them.
pub proof fn lemma_burst_comes_from_trail(segments: Seq<Segment>, draws: Seq<PopDraw>)
    requires
        draws.len() == segments.len(),
        all_in_world(segments),
    ensures
        spec_burst(segments, draws).len() <= segments.len(),
        forall|k: int|
            0 <= k < spec_burst(segments, draws).len() ==> thrown_from_trail(
                #[trigger] spec_burst(segments, draws)[k],
                segments,
            ),
    decreases segments.len(),
{
    if segments.len() > 0 {
        let older = segments.drop_last();
        let rest = spec_burst(older, draws.drop_last());
        let burst = spec_burst(segments, draws);
        let newest = segments.len() - 1;
        assert(all_in_world(older));
        lemma_burst_comes_from_trail(older, draws.drop_last());
        assert forall|k: int| 0 <= k < burst.len() implies thrown_from_trail(
            #[trigger] burst[k],
            segments,
        ) by {
            if k < rest.len() {
                let i = choose|i: int|
                    0 <= i < older.len() && thrown_from(rest[k], #[trigger] older[i]);
                assert(thrown_from(burst[k], segments[i]));
            } else {
                assert(thrown_from(burst[k], segments[newest]));
            }
        }
    }
}

} // verus!
