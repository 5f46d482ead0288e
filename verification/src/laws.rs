//! Laws of the simulation, proved of the model that the entity's contracts
//! are stated over.

use vstd::prelude::*;
use vstd::math::{abs, max};
use crate::actions::{BoundsAction, Lifecycle, SpriteAction};
use crate::arith::pixel_of;
use crate::draw::{surface_coord, DrawOp, LABEL_RISE, LIVES_DROP};
use crate::bounds::{
    bounce_hits, lemma_resolve_stays_near, outside_axis, stop_hits, wrap_axis, COORD_LIMIT,
};
use crate::geometry::{Coords, Region};
use crate::model::{collision_of, EntityModel};

verus! {

/// A tick keeps the invariant: whatever the policy, the velocity and the
/// elapsed time, a valid entity is valid after it.
pub proof fn law_step_keeps_valid(m: EntityModel, elapsed: int)
    requires
        m.valid(),
    ensures
        m.step(elapsed).0.valid(),
{
    if !m.dying() {
        let framed = m.advance_frame();
        assert(framed.valid());
        let sought = framed.seek_target();
        assert(sought.valid());
        let to = sought.destination(elapsed);
        lemma_resolve_stays_near(
            sought.bounds_action,
            sought.bounds,
            sought.position.width(),
            sought.position.height(),
            to.x,
            to.y,
            sought.velocity,
            COORD_LIMIT as int,
        );
    }
}

/// Stop clamps: a live entity under `Stop` whose movement would leave the
/// room between the arena's edges ends exactly at the edge it crossed, on
/// either axis, and then stands still on both axes, even if only one axis
/// was crossed. One that stays inside goes where it was headed and keeps its
/// velocity.
pub proof fn law_stop_clamps(m: EntityModel, elapsed: int)
    requires
        m.valid(),
        !m.dying(),
        m.bounds_action == BoundsAction::Stop,
    ensures
        ({
            let before = m.advance_frame().seek_target();
            let to = before.destination(elapsed);
            let (after, action) = m.step(elapsed);
            let room_x = m.bounds.right - before.position.width();
            let room_y = m.bounds.bottom - before.position.height();
            let hit_x = stop_hits(to.x, m.bounds.left, m.bounds.right, before.position.width());
            let hit_y = stop_hits(to.y, m.bounds.top, m.bounds.bottom, before.position.height());
            &&& action == SpriteAction::NoAction
            &&& to.x < m.bounds.left ==> after.position.left == m.bounds.left
            &&& to.x >= m.bounds.left && to.x > room_x ==> after.position.left == max(
                m.bounds.left,
                room_x,
            )
            &&& !hit_x ==> after.position.left == to.x
            &&& to.y < m.bounds.top ==> after.position.top == m.bounds.top
            &&& to.y >= m.bounds.top && to.y > room_y ==> after.position.top == max(
                m.bounds.top,
                room_y,
            )
            &&& !hit_y ==> after.position.top == to.y
            &&& hit_x || hit_y ==> after.velocity == (Coords { x: 0, y: 0 })
            &&& !hit_x && !hit_y ==> after.velocity == m.velocity
            &&& after.position.width() == before.position.width()
            &&& after.position.height() == before.position.height()
        }),
{
}

/// Wrap, on one axis: an entity that has just reappeared on the low side,
/// wholly outside with its far edge on `lo`, and moves on by `advance >= 0`
/// is not wrapped again until it is wholly past `hi`; and likewise from the
/// high side downward.
pub proof fn law_wrap_waits_for_exit(lo: int, hi: int, size: int, advance: int)
    requires
        advance >= 0,
    ensures
        wrap_axis(lo - size + advance, lo, hi, size) == if lo - size + advance > hi {
            lo - size
        } else {
            lo - size + advance
        },
        wrap_axis(hi - advance, lo, hi, size) == if hi - advance + size < lo {
            hi
        } else {
            hi - advance
        },
{
}

/// Wrap, over two ticks: a live entity of non-negative width, under `Wrap` in
/// an arena whose edges are in order, that moves rightward and gets wholly past the arena's right edge reappears with its left edge one
/// entity width before the arena's left edge, its velocity unchanged. On the
/// next tick in the same direction it simply moves on, and is wrapped again
/// only once it is wholly past the right edge again.
pub proof fn law_wrap_reappears(m: EntityModel, first: int, second: int)
    requires
        m.valid(),
        !m.dying(),
        m.bounds_action == BoundsAction::Wrap,
        m.position.width() >= 0,
        m.bounds.left <= m.bounds.right,
        m.velocity.x > 0,
        second >= 0,
        m.destination(first).x > m.bounds.right,
        !m.step(first).0.dying(),
    ensures
        ({
            let (one, action_one) = m.step(first);
            let (two, action_two) = one.step(second);
            let start = m.bounds.left - m.position.width();
            let onward = start + m.velocity.x * second;
            &&& action_one == SpriteAction::NoAction
            &&& action_two == SpriteAction::NoAction
            &&& one.position.left == start
            &&& one.velocity == m.velocity
            &&& onward <= m.bounds.right ==> two.position.left == onward
            &&& onward > m.bounds.right ==> two.position.left == start
            &&& two.velocity == m.velocity
        }),
{
    let vx = m.velocity.x;
    assert(vx * second >= 0) by (nonlinear_arith)
        requires
            vx > 0,
            second >= 0,
    ;
    let framed = m.advance_frame();
    assert(framed.seek_target() == framed);
    let one = m.step(first).0;
    assert(one.position.left == m.bounds.left - m.position.width());
    let framed_one = one.advance_frame();
    assert(framed_one.seek_target() == framed_one);
}

/// Bounce keeps the speed: after a tick under `Bounce` each component of the
/// velocity has the magnitude it had, and has changed its sign exactly when
/// the entity crossed an edge on that axis.
pub proof fn law_bounce_keeps_speed(m: EntityModel, elapsed: int)
    requires
        m.valid(),
        !m.dying(),
        m.bounds_action == BoundsAction::Bounce,
    ensures
        ({
            let before = m.advance_frame().seek_target();
            let to = before.destination(elapsed);
            let (after, action) = m.step(elapsed);
            let hit_x = bounce_hits(to.x, m.bounds.left, m.bounds.right, before.position.width());
            let hit_y = bounce_hits(to.y, m.bounds.top, m.bounds.bottom, before.position.height());
            &&& action == SpriteAction::NoAction
            &&& abs(after.velocity.x) == abs(m.velocity.x)
            &&& abs(after.velocity.y) == abs(m.velocity.y)
            &&& after.velocity.x == if hit_x {
                -m.velocity.x
            } else {
                m.velocity.x
            }
            &&& after.velocity.y == if hit_y {
                -m.velocity.y
            } else {
                m.velocity.y
            }
            &&& to.x < m.bounds.left ==> after.position.left == m.bounds.left
            &&& to.x >= m.bounds.left && hit_x ==> after.position.right == m.bounds.right
            &&& to.y < m.bounds.top ==> after.position.top == m.bounds.top
            &&& to.y >= m.bounds.top && hit_y ==> after.position.bottom == m.bounds.bottom
        }),
{
}

/// Die removes exactly the entities that have left: a live entity under
/// `Die` is killed by a tick if and only if its bounding box, carried to
/// where it was headed, shares no point with the arena. A box that touches
/// an edge of the arena shares a point with it and lives. A killed entity is
/// not moved; a surviving one goes where it was headed.
pub proof fn law_die_iff_outside(m: EntityModel, elapsed: int)
    requires
        m.valid(),
        !m.dying(),
        m.bounds_action == BoundsAction::Die,
    ensures
        ({
            let before = m.advance_frame().seek_target();
            let to = before.destination(elapsed);
            let carried = before.position.moved_to(to.x, to.y);
            let (after, action) = m.step(elapsed);
            &&& action == SpriteAction::Kill <==> !carried.overlaps(m.bounds)
            &&& action != SpriteAction::Kill ==> action == SpriteAction::NoAction
            &&& action == SpriteAction::Kill ==> after == before
            &&& action == SpriteAction::NoAction ==> after.position == carried && after.velocity
                == m.velocity
        }),
{
}

/// The trailing edge on the arena's low edge is not outside, nor is the
/// leading edge on the high edge; one unit further is.
pub proof fn law_touching_is_inside(lo: int, hi: int, size: int)
    ensures
        !outside_axis(lo - size, lo, hi, size) || lo - size > hi,
        !outside_axis(hi, lo, hi, size) || hi + size < lo,
        outside_axis(lo - size - 1, lo, hi, size),
        outside_axis(hi + 1, lo, hi, size),
{
}

/// The collision box is the bounding box moved inward by a twelfth of its
/// span on each side. For a bounding box with its edges in order, both insets
/// on an axis are the same whole number `span / 12`, the collision box lies
/// inside the bounding box, strictly so as soon as the span reaches twelve
/// units, and is the bounding box itself where the span is zero.
pub proof fn law_collision_inset(position: Region)
    requires
        position.ordered(),
    ensures
        ({
            let c = collision_of(position);
            let inset_x = position.width() / 12;
            let inset_y = position.height() / 12;
            &&& c.left == position.left + inset_x
            &&& c.right == position.right - inset_x
            &&& c.top == position.top + inset_y
            &&& c.bottom == position.bottom - inset_y
            &&& 12 * inset_x <= position.width() < 12 * inset_x + 12
            &&& 12 * inset_y <= position.height() < 12 * inset_y + 12
            &&& position.left <= c.left <= c.right <= position.right
            &&& position.top <= c.top <= c.bottom <= position.bottom
            &&& position.width() >= 12 ==> position.left < c.left && c.right < position.right
            &&& position.height() >= 12 ==> position.top < c.top && c.bottom < position.bottom
            &&& position.width() == 0 ==> c.left == position.left && c.right == position.right
            &&& position.height() == 0 ==> c.top == position.top && c.bottom == position.bottom
        }),
{
}

/// Every valid entity carries the collision box of its bounding box.
pub proof fn law_collision_follows_position(m: EntityModel)
    requires
        m.valid(),
    ensures
        m.collision == collision_of(m.position),
{
}

/// Two boxes of one size, the second `distance >= 0` to the right of the
/// first: their collision boxes meet exactly up to a distance of the span
/// less twice the inset, the distance at which they touch.
pub proof fn law_collision_distance(position: Region, distance: int)
    requires
        position.ordered(),
        distance >= 0,
    ensures
        collision_of(position).overlaps(collision_of(position.offset(distance, 0))) <==> distance
            <= position.width() - 2 * (position.width() / 12),
{
}

/// A killed entity is removed at its next tick, and not before: marking it
/// dying changes nothing else, and the tick that follows reports `Kill` and
/// leaves the entity as it is.
pub proof fn law_kill_is_deferred(m: EntityModel, elapsed: int)
    ensures
        m.killed().dying(),
        m.killed() == (EntityModel { lifecycle: Lifecycle::PendingKill, ..m }),
        m.killed().step(elapsed) == (m.killed(), SpriteAction::Kill),
{
}

/// A one-cycle animation ends the entity: the tick that would show a frame
/// past the last one marks the entity dying, without itself reporting `Kill`
/// for it, and the tick after that reports `Kill`.
pub proof fn law_one_cycle_ends(m: EntityModel, elapsed: int, next: int)
    requires
        m.valid(),
        !m.dying(),
        m.one_cycle,
        m.frame_due(),
        m.cur_frame + 1 >= m.num_frames,
    ensures
        ({
            let (after, action) = m.step(elapsed);
            &&& after.dying()
            &&& m.bounds_action != BoundsAction::Die ==> action == SpriteAction::NoAction
            &&& after.step(next) == (after, SpriteAction::Kill)
        }),
{
}

/// Frames change once every `frame_delay` ticks: from the tick on which the
/// countdown was restarted, the frame stays for `frame_delay - 1` ticks while
/// the countdown runs, and the tick after that shows the next frame and
/// restarts the countdown.
pub proof fn law_frame_cadence(m: EntityModel, ticks: nat)
    requires
        m.frame_delay >= 1,
        m.frame_delay <= i32::MAX,
        m.frame_trigger == m.frame_delay,
        ticks <= m.frame_delay,
    ensures
        ticks < m.frame_delay ==> m.after_frames(ticks) == (EntityModel {
            frame_trigger: m.frame_delay - ticks,
            ..m
        }),
        ticks == m.frame_delay ==> m.after_frames(ticks) == (EntityModel {
            frame_trigger: 1,
            ..m
        }).advance_frame(),
        ticks == m.frame_delay ==> m.after_frames(ticks).frame_trigger == m.frame_delay
            && m.after_frames(ticks).cur_frame == if m.cur_frame + 1 < m.num_frames
            || m.one_cycle {
            m.cur_frame + 1
        } else {
            0
        },
    decreases ticks,
{
    if ticks > 0 {
        law_frame_cadence(m, (ticks - 1) as nat);
    }
}

/// A valid entity is drawn where it stands: the pixel coordinates of its
/// corner and of the text rows below it are within the surface's range, so
/// none of them is cut short.
pub proof fn law_pixels_fit(m: EntityModel)
    requires
        m.valid(),
    ensures
        m.anchor_x() == pixel_of(m.position.left),
        m.anchor_y() == pixel_of(m.position.top),
        surface_coord(pixel_of(m.position.top) - LABEL_RISE) == pixel_of(m.position.top)
            - LABEL_RISE,
        surface_coord(pixel_of(m.position.bottom) + LIVES_DROP) == pixel_of(m.position.bottom)
            + LIVES_DROP,
{
}

/// The label is drawn above the entity and the lives row below it: for a
/// valid entity whose bounding box has its edges in order, the label's
/// baseline lies [`LABEL_RISE`] pixels above the pixel row of the top edge and
/// the lives row [`LIVES_DROP`] pixels below that of the bottom edge, and both
/// are set from the bounding box alone.
pub proof fn law_label_above_lives_below(m: EntityModel)
    requires
        m.valid(),
        m.position.ordered(),
    ensures
        m.label_op() matches DrawOp::FillText { y, .. } && y == m.anchor_y() - LABEL_RISE && y
            < m.anchor_y(),
        m.lives_op() matches DrawOp::FillText { x, y, .. } && x == m.anchor_x() && y == pixel_of(
            m.position.bottom,
        ) + LIVES_DROP && y > m.anchor_y(),
{
}

/// An animation that loops never marks the entity dying, and shows frame 0
/// after its last frame.
pub proof fn law_looping_animation(m: EntityModel)
    requires
        !m.one_cycle,
    ensures
        m.advance_frame().lifecycle == m.lifecycle,
        m.frame_due() && m.cur_frame + 1 >= m.num_frames ==> m.advance_frame().cur_frame == 0,
        m.frame_due() && m.cur_frame + 1 < m.num_frames ==> m.advance_frame().cur_frame
            == m.cur_frame + 1,
        !m.frame_due() ==> m.advance_frame().cur_frame == m.cur_frame,
{
}

} // verus!
