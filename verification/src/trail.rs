//! The trail: a time-decaying sequence of recent pointer positions.
//!
//! Points are kept oldest first; each carries an age that starts at a whole
//! unit and shrinks with every update, and a point whose age reaches zero is
//! pruned. Drawing never changes the trail: it only computes the paint plan,
//! which the surrounding application hands to its renderer.

use vstd::prelude::*;
use crate::units::{FP_ONE, decay_amount, decay_ticks, alpha_of, alpha_byte, Rgba};

verus! {

/// One sample of the pointer: remaining age in ticks (`FP_ONE` at creation)
/// and a position in fixed-point canvas coordinates.
#[derive(Clone, Copy, PartialEq, Eq, Structural, Debug)]
pub struct TrailPoint {
    pub age: u64,
    pub x: i64,
    pub y: i64,
}

/// Whether a point outlives an update that takes `d` ticks of age away.
pub open spec fn survives(p: TrailPoint, d: int) -> bool {
    p.age > d
}

/// The point `p` after losing `d` ticks of age.
pub open spec fn decayed(p: TrailPoint, d: int) -> TrailPoint {
    TrailPoint { age: (p.age - d) as u64, x: p.x, y: p.y }
}

/// The point sequence after one update that takes `d` ticks of age away:
/// every point decays, then the points at or below zero age are dropped, and
/// the survivors keep their insertion order.
pub open spec fn updated(s: Seq<TrailPoint>, d: int) -> Seq<TrailPoint>
    decreases s.len(),
{
    if s.len() == 0 {
        Seq::empty()
    } else if survives(s.last(), d) {
        updated(s.drop_last(), d).push(decayed(s.last(), d))
    } else {
        updated(s.drop_last(), d)
    }
}

/// One rendering instruction for the surrounding application: a filled
/// circle or an image sprite centered at a fixed-point canvas position.
#[derive(Clone, Copy, PartialEq, Eq, Debug)]
pub enum DrawCmd {
    Circle { x: i64, y: i64, radius: u64, color: Rgba },
    Sprite { handle: u32, x: i64, y: i64, size: u64, color: Rgba },
}

/// The command that paints a marker of the given size and color centered at
/// (`x`, `y`): a sprite of the image `tex` when `is_image` asks for one and
/// an image is present, a filled circle otherwise.
pub open spec fn marker_cmd(
    x: i64,
    y: i64,
    size: u64,
    color: Rgba,
    is_image: bool,
    tex: Option<u32>,
) -> DrawCmd {
    match tex {
        Some(h) => if is_image {
            DrawCmd::Sprite { handle: h, x, y, size, color }
        } else {
            DrawCmd::Circle { x, y, radius: size, color }
        },
        None => DrawCmd::Circle { x, y, radius: size, color },
    }
}

/// Builds the marker command for one position.
pub fn render_marker(
    x: i64,
    y: i64,
    size: u64,
    color: Rgba,
    is_image: bool,
    tex: Option<u32>,
) -> (c: DrawCmd)
    ensures
        c == marker_cmd(x, y, size, color, is_image, tex),
{
    match tex {
        Some(h) => if is_image {
            DrawCmd::Sprite { handle: h, x, y, size, color }
        } else {
            DrawCmd::Circle { x, y, radius: size, color }
        },
        None => DrawCmd::Circle { x, y, radius: size, color },
    }
}

/// A time-decaying sequence of recent pointer positions, oldest first, with
/// the appearance its points are drawn with. The image is held as a handle
/// the surrounding application resolves to its loaded texture.
pub struct Trail {
    pub points: Vec<TrailPoint>,
    pub decay_rate: u64,
    pub color: Rgba,
    pub size: u64,
    pub is_image: bool,
    pub tex: Option<u32>,
}

impl Trail {
    /// Every live point holds between one tick and one whole unit of age.
    pub open spec fn wf(&self) -> bool {
        forall|i: int| 0 <= i < self.points@.len() ==> 0 < #[trigger] self.points@[i].age <= FP_ONE
    }

    /// The color a point of age `a` is painted with: the trail color with its
    /// alpha channel replaced by the point's remaining freshness, so points
    /// fade as they age whether drawn as circles or as sprites.
    pub open spec fn faded_color(&self, a: u64) -> Rgba {
        Rgba { r: self.color.r, g: self.color.g, b: self.color.b, a: alpha_of(a) as u8 }
    }

    /// The command that paints one trail point.
    pub open spec fn point_cmd(&self, p: TrailPoint) -> DrawCmd {
        marker_cmd(p.x, p.y, self.size, self.faded_color(p.age), self.is_image, self.tex)
    }

    /// Everything one `draw` call paints, oldest point first.
    pub open spec fn rendered(&self) -> Seq<DrawCmd> {
        self.points@.map_values(|p: TrailPoint| self.point_cmd(p))
    }

    /// A trail with no points yet and the given appearance: `decay_rate` in
    /// ticks of age per second, marker `size` in fixed-point canvas pixels,
    /// and an optional image handle used when `is_image` is set.
    pub fn new(decay_rate: u64, color: Rgba, size: u64, is_image: bool, tex: Option<u32>) -> (t: Trail)
        ensures
            t.wf(),
            t.points@ == Seq::<TrailPoint>::empty(),
            t.decay_rate == decay_rate,
            t.color == color,
            t.size == size,
            t.is_image == is_image,
            t.tex == tex,
    {
        Trail { points: Vec::new(), decay_rate, color, size, is_image, tex }
    }

    /// Appends a fresh point, at full age, at (`x`, `y`) to the end of the
    /// trail; nothing else changes.
    pub fn add_new(&mut self, x: i64, y: i64)
        requires
            old(self).wf(),
        ensures
            final(self).wf(),
            final(self).points@ == old(self).points@.push(TrailPoint { age: FP_ONE, x, y }),
            final(self).decay_rate == old(self).decay_rate,
            final(self).color == old(self).color,
            final(self).size == old(self).size,
            final(self).is_image == old(self).is_image,
            final(self).tex == old(self).tex,
    {
        self.points.push(TrailPoint { age: FP_ONE, x, y });
    }

    /// Ages every point by `decay_rate * dt` ticks, then drops the points
    /// whose age was used up; survivors keep their insertion order. Decay is
    /// applied to all points before any pruning, so a point added in the
    /// current frame is pruned only when the frame's whole loss reaches a
    /// full unit.
    pub fn update(&mut self, dt: u64)
        requires
            old(self).wf(),
        ensures
            final(self).wf(),
            final(self).points@ == updated(old(self).points@, decay_amount(old(self).decay_rate, dt)),
            final(self).decay_rate == old(self).decay_rate,
            final(self).color == old(self).color,
            final(self).size == old(self).size,
            final(self).is_image == old(self).is_image,
            final(self).tex == old(self).tex,
    {
        let d = decay_ticks(self.decay_rate, dt);
        let ghost dd: int = decay_amount(self.decay_rate, dt);
        let ghost s: Seq<TrailPoint> = self.points@;
        let mut kept: Vec<TrailPoint> = Vec::new();
        let mut i: usize = 0;
        while i < self.points.len()
            invariant
                self == old(self),
                self.wf(),
                s == self.points@,
                i <= s.len(),
                d <= FP_ONE,
                dd == decay_amount(self.decay_rate, dt),
                dd < FP_ONE ==> d == dd,
                dd >= FP_ONE ==> d == FP_ONE,
                kept@ == updated(s.take(i as int), dd),
                forall|k: int| 0 <= k < kept@.len() ==> 0 < #[trigger] kept@[k].age <= FP_ONE,
            decreases s.len() - i,
        {
            let p = self.points[i];
            proof {
                assert(s.take(i + 1).drop_last() =~= s.take(i as int));
                assert(s.take(i + 1).last() == s[i as int]);
                // the saturated tick count prunes exactly the points the
                // exact amount would: no live age exceeds a whole unit
                assert(survives(p, dd) <==> p.age > d);
            }
            if p.age > d {
                kept.push(TrailPoint { age: p.age - d, x: p.x, y: p.y });
            }
            i = i + 1;
        }
        proof {
            assert(s.take(s.len() as int) =~= s);
        }
        self.points = kept;
    }

    /// The paint plan for the whole trail, in insertion order (oldest first),
    /// so that newer points visually overlay older ones. The trail is only
    /// read: the plan is a function of the trail's current value alone.
    pub fn draw(&self) -> (cmds: Vec<DrawCmd>)
        requires
            self.wf(),
        ensures
            cmds@ == self.rendered(),
    {
        let mut cmds: Vec<DrawCmd> = Vec::new();
        let mut i: usize = 0;
        while i < self.points.len()
            invariant
                self.wf(),
                i <= self.points@.len(),
                cmds@ == self.points@.take(i as int).map_values(|p: TrailPoint| self.point_cmd(p)),
            decreases self.points@.len() - i,
        {
            let p = self.points[i];
            let a = alpha_byte(p.age);
            let col = Rgba { r: self.color.r, g: self.color.g, b: self.color.b, a };
            let c = render_marker(p.x, p.y, self.size, col, self.is_image, self.tex);
            cmds.push(c);
            proof {
                assert(cmds@ =~= self.points@.take(i + 1).map_values(
                    |q: TrailPoint| self.point_cmd(q),
                ));
            }
            i = i + 1;
        }
        proof {
            assert(self.points@.take(self.points@.len() as int) =~= self.points@);
        }
        cmds
    }
}

/// An update of an empty trail is a no-op: the point sequence stays empty.
pub proof fn lemma_update_empty(d: int)
    ensures
        updated(Seq::<TrailPoint>::empty(), d) == Seq::<TrailPoint>::empty(),
{
}

/// A point whose age is exactly used up by the decay (new age zero) is
/// removed, not retained.
pub proof fn lemma_exact_decay_prunes(p: TrailPoint, d: int)
    requires
        p.age == d,
    ensures
        updated(seq![p], d) == Seq::<TrailPoint>::empty(),
{
    let s = seq![p];
    assert(s.len() == 1);
    assert(s.last() == p);
    assert(!survives(p, d));
    assert(s.drop_last() =~= Seq::<TrailPoint>::empty());
    assert(updated(s, d) == updated(Seq::<TrailPoint>::empty(), d));
}

/// Decay and pruning act on each point independently and keep order, so an
/// update of two trails laid end to end updates each part in place.
pub proof fn lemma_updated_concat(a: Seq<TrailPoint>, b: Seq<TrailPoint>, d: int)
    ensures
        updated(a + b, d) == updated(a, d) + updated(b, d),
    decreases b.len(),
{
    if b.len() == 0 {
        assert(a + b =~= a);
        assert(updated(a, d) + updated(b, d) =~= updated(a, d));
    } else {
        lemma_updated_concat(a, b.drop_last(), d);
        assert((a + b).drop_last() =~= a + b.drop_last());
        assert((a + b).last() == b.last());
        if survives(b.last(), d) {
            assert(updated(a, d) + updated(b.drop_last(), d).push(decayed(b.last(), d)) =~= (
            updated(a, d) + updated(b.drop_last(), d)).push(decayed(b.last(), d)));
        }
    }
}

/// Points created in the current frame (full age) all survive an update
/// whose loss is under a whole unit, each retaining age `FP_ONE - d` and
/// their order.
pub proof fn lemma_fresh_all_survive(b: Seq<TrailPoint>, d: int)
    requires
        0 <= d < FP_ONE,
        forall|i: int| 0 <= i < b.len() ==> #[trigger] b[i].age == FP_ONE,
    ensures
        updated(b, d) == b.map_values(|p: TrailPoint| decayed(p, d)),
    decreases b.len(),
{
    if b.len() == 0 {
        assert(b.map_values(|p: TrailPoint| decayed(p, d)) =~= Seq::<TrailPoint>::empty());
    } else {
        lemma_fresh_all_survive(b.drop_last(), d);
        assert(b.last().age == FP_ONE);
        assert(b.map_values(|p: TrailPoint| decayed(p, d)) =~= b.drop_last().map_values(
            |p: TrailPoint| decayed(p, d),
        ).push(decayed(b.last(), d)));
    }
}

/// After any run of `add_new` calls in a frame followed by a single update
/// whose loss `d` is under a whole unit, every point added in that frame is
/// still present, in order and after the older survivors, with age
/// `FP_ONE - d`; none of them was removed.
pub proof fn lemma_adds_then_update(prev: Seq<TrailPoint>, added: Seq<TrailPoint>, d: int)
    requires
        0 <= d < FP_ONE,
        forall|i: int| 0 <= i < added.len() ==> #[trigger] added[i].age == FP_ONE,
    ensures
        updated(prev + added, d) == updated(prev, d) + added.map_values(
            |p: TrailPoint| decayed(p, d),
        ),
{
    lemma_updated_concat(prev, added, d);
    lemma_fresh_all_survive(added, d);
}

/// Whether `q` is the strictly aged copy of some point of `s` that outlived
/// a loss of `d` ticks.
pub open spec fn aged_copy_of(s: Seq<TrailPoint>, d: int, q: TrailPoint) -> bool {
    exists|j: int|
        0 <= j < s.len() && survives(#[trigger] s[j], d) && q == decayed(s[j], d) && q.age
            < s[j].age
}

/// Any positive loss strictly decreases every surviving point's age, and an
/// update never invents a point: every element of the result is the strictly
/// aged copy of a point that outlived the loss, so a pruned point never
/// reappears.
pub proof fn lemma_update_decreases(s: Seq<TrailPoint>, d: int)
    requires
        d >= 1,
    ensures
        updated(s, d).len() <= s.len(),
        forall|i: int|
            0 <= i < updated(s, d).len() ==> aged_copy_of(s, d, #[trigger] updated(s, d)[i]),
    decreases s.len(),
{
    if s.len() > 0 {
        lemma_update_decreases(s.drop_last(), d);
        let rest = updated(s.drop_last(), d);
        assert forall|i: int| 0 <= i < updated(s, d).len() implies aged_copy_of(
            s,
            d,
            #[trigger] updated(s, d)[i],
        ) by {
            if i < rest.len() {
                assert(aged_copy_of(s.drop_last(), d, updated(s.drop_last(), d)[i]));
                let j = choose|j: int|
                    0 <= j < s.drop_last().len() && survives(#[trigger] s.drop_last()[j], d)
                        && rest[i] == decayed(s.drop_last()[j], d) && rest[i].age
                        < s.drop_last()[j].age;
                assert(s[j] == s.drop_last()[j]);
                assert(updated(s, d)[i] == rest[i]);
                assert(survives(s[j], d));
            } else {
                let j = s.len() - 1;
                assert(survives(s.last(), d));
                assert(s[j] == s.last());
                assert(updated(s, d) == rest.push(decayed(s.last(), d)));
                assert(updated(s, d)[i] == decayed(s[j], d));
                assert(decayed(s[j], d).age == s[j].age - d);
                assert(survives(s[j], d));
            }
        }
    } else {
        assert(updated(s, d) == Seq::<TrailPoint>::empty());
    }
}

/// Repeated updates accumulate: two successive updates age and prune exactly
/// as one update by the summed loss, so a point keeps shrinking, frame after
/// frame, until the accumulated loss reaches its starting age and it is
/// pruned for good.
pub proof fn lemma_updates_accumulate(s: Seq<TrailPoint>, d1: int, d2: int)
    requires
        0 <= d1,
        0 <= d2,
    ensures
        updated(updated(s, d1), d2) == updated(s, d1 + d2),
    decreases s.len(),
{
    if s.len() > 0 {
        lemma_updates_accumulate(s.drop_last(), d1, d2);
        let p = s.last();
        if survives(p, d1) {
            let u1 = updated(s.drop_last(), d1).push(decayed(p, d1));
            assert(updated(s, d1) == u1);
            assert(u1.drop_last() =~= updated(s.drop_last(), d1));
            assert(u1.last() == decayed(p, d1));
            if survives(decayed(p, d1), d2) {
                assert(survives(p, d1 + d2));
                assert(decayed(decayed(p, d1), d2) == decayed(p, d1 + d2));
            } else {
                assert(!survives(p, d1 + d2));
            }
        } else {
            assert(updated(s, d1) == updated(s.drop_last(), d1));
            assert(!survives(p, d1 + d2));
        }
    }
}

/// Drawing is read-only and deterministic: two paint plans computed from the
/// same trail, with no update or add between them, are identical.
pub proof fn lemma_draw_deterministic(t: &Trail, c1: Seq<DrawCmd>, c2: Seq<DrawCmd>)
    requires
        c1 == t.rendered(),
        c2 == t.rendered(),
    ensures
        c1 == c2,
{
}

} // verus!
