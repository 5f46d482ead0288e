//! The entity: a movable, animated, collidable object that owns its state and
//! advances it one tick at a time.

use vstd::prelude::*;
use vstd::string::*;
use crate::actions::{BoundsAction, Lifecycle, SpriteAction};
use crate::arith::{divide, lemma_quotient_bounded, saturate, to_pixel, UNITS_PER_PIXEL};
use crate::bounds::{resolve_bounds, Resolution, COORD_LIMIT, REACH};
use crate::draw::{
    byte_len, carries_out, format_lives, format_score, DrawCommand, LABEL_BYTE_WIDTH, LABEL_RISE,
    LIVES_DROP, LIVES_FEW,
};
use crate::geometry::{Coords, Point, PointF, Rect};
use crate::model::{collision_of, BitmapSize, EntityModel};

verus! {

/// A simulated sprite. Its state is private; `entity@` is its model.
pub struct Entity {
    id: u32,
    parent_id: u32,
    bitmap: BitmapSize,
    num_frames: i32,
    cur_frame: i32,
    frame_delay: i32,
    frame_trigger: i32,
    position: Rect,
    target_position: Option<PointF>,
    bounds: Rect,
    velocity: PointF,
    z_order: i32,
    collision: Rect,
    bounds_action: BoundsAction,
    hidden: bool,
    lifecycle: Lifecycle,
    one_cycle: bool,
    name: String,
    score: i32,
    killer_id: u32,
    killer_name: String,
    lives: u32,
    rotation: i64,
}

impl View for Entity {
    type V = EntityModel;

    closed spec fn view(&self) -> EntityModel {
        EntityModel {
            id: self.id,
            parent_id: self.parent_id,
            bitmap: self.bitmap,
            num_frames: self.num_frames as int,
            cur_frame: self.cur_frame as int,
            frame_delay: self.frame_delay as int,
            frame_trigger: self.frame_trigger as int,
            one_cycle: self.one_cycle,
            position: self.position@,
            collision: self.collision@,
            target: match self.target_position {
                Some(t) => Some(t@),
                None => None,
            },
            bounds: self.bounds@,
            velocity: self.velocity@,
            z_order: self.z_order as int,
            bounds_action: self.bounds_action,
            hidden: self.hidden,
            lifecycle: self.lifecycle,
            name: self.name@,
            score: self.score as int,
            killer_id: self.killer_id,
            killer_name: self.killer_name@,
            lives: self.lives as nat,
            rotation: self.rotation as int,
        }
    }
}

/// Where a coordinate gets to at a constant speed, free of any boundary.
fn reach(from: i64, speed: i64, elapsed: i64) -> (to: i128)
    requires
        -2 * COORD_LIMIT <= from <= 2 * COORD_LIMIT,
        speed > i64::MIN,
    ensures
        to == from + speed * elapsed,
        -REACH <= to <= REACH,
{
    assert(-0x4000_0000_0000_0000_0000_0000_0000_0000 + 0x8000_0000_0000_0000 <= speed * elapsed
        <= 0x4000_0000_0000_0000_0000_0000_0000_0000 - 0x8000_0000_0000_0000)
        by (nonlinear_arith)
        requires
            -0x7fff_ffff_ffff_ffff <= speed <= 0x7fff_ffff_ffff_ffff,
            -0x8000_0000_0000_0000 <= elapsed <= 0x7fff_ffff_ffff_ffff,
    ;
    from as i128 + (speed as i128) * (elapsed as i128)
}

/// The collision box that goes with the bounding box `position`: each side
/// moved inward by a twelfth of the box's span on that axis, rounded toward
/// zero. It depends on `position` alone and is defined for every rectangle.
pub fn collision_rect(position: &Rect) -> (collision: Rect)
    ensures
        collision@ == collision_of(position@),
{
    let x_shrink: i128 = (position.left as i128 - position.right as i128) / 12;
    let y_shrink: i128 = (position.top as i128 - position.bottom as i128) / 12;
    Rect {
        left: (position.left as i128 - x_shrink) as i64,
        top: (position.top as i128 - y_shrink) as i64,
        right: (position.right as i128 + x_shrink) as i64,
        bottom: (position.bottom as i128 + y_shrink) as i64,
    }
}

impl Entity {
    /// The entity's invariant, which every constructor establishes and every
    /// method keeps.
    pub open spec fn wf(&self) -> bool {
        self@.valid()
    }

    /// Whether [`Entity::new`] can be called with these arguments.
    pub fn can_create(
        bitmap: &BitmapSize,
        position: &PointF,
        velocity: &PointF,
        bounds: &Rect,
    ) -> (ok: bool)
        ensures
            ok == EntityModel::admits(*bitmap, position@, velocity@, bounds@),
    {
        let width: i64 = bitmap.width as i64 * UNITS_PER_PIXEL;
        let height: i64 = bitmap.height as i64 * UNITS_PER_PIXEL;
        bounds.within(COORD_LIMIT) && -COORD_LIMIT <= width && width <= COORD_LIMIT
            && -COORD_LIMIT <= height && height <= COORD_LIMIT && position.within(2 * COORD_LIMIT)
            && velocity.x > i64::MIN && velocity.y > i64::MIN
    }

    /// Whether `position` can be handed to [`Entity::set_position_rect`].
    pub fn can_occupy(position: &Rect) -> (ok: bool)
        ensures
            ok == EntityModel::accepts(position@),
    {
        let corner = PointF { x: position.left, y: position.top };
        let width: i128 = position.right as i128 - position.left as i128;
        let height: i128 = position.bottom as i128 - position.top as i128;
        let limit: i128 = COORD_LIMIT as i128;
        corner.within(2 * COORD_LIMIT) && -limit <= width && width <= limit && -limit <= height
            && height <= limit
    }

    /// Creates an entity whose bounding box has the bitmap's size and its
    /// top-left corner at `position`.
    pub fn new(
        id: u32,
        bitmap: BitmapSize,
        position: PointF,
        velocity: PointF,
        z_order: i32,
        bounds: Rect,
        bounds_action: BoundsAction,
    ) -> (entity: Entity)
        requires
            EntityModel::admits(bitmap, position@, velocity@, bounds@),
        ensures
            entity.wf(),
            entity@ == EntityModel::initial(
                id,
                bitmap,
                position@,
                velocity@,
                z_order as int,
                bounds@,
                bounds_action,
            ),
    {
        let width: i64 = bitmap.width as i64 * UNITS_PER_PIXEL;
        let height: i64 = bitmap.height as i64 * UNITS_PER_PIXEL;
        let mut sprite = Entity {
            id,
            parent_id: 0,
            position: Rect::new(position.x, position.y, position.x + width, position.y + height),
            target_position: None,
            bitmap,
            num_frames: 1,
            cur_frame: 0,
            frame_delay: 0,
            frame_trigger: 0,
            velocity,
            z_order,
            bounds,
            bounds_action,
            hidden: false,
            lifecycle: Lifecycle::Alive,
            one_cycle: false,
            name: String::new(),
            collision: Rect::zero(),
            score: 0,
            killer_id: 0,
            killer_name: String::new(),
            lives: 0,
            rotation: 0,
        };
        sprite.calc_collision_rect();
        sprite
    }

    /// Creates an entity at the origin, at rest, with z-order 0, that stops at
    /// the edges of `bounds`.
    pub fn from_bitmap(id: u32, bitmap: BitmapSize, bounds: Rect) -> (entity: Entity)
        requires
            EntityModel::admits(bitmap, Coords { x: 0, y: 0 }, Coords { x: 0, y: 0 }, bounds@),
        ensures
            entity.wf(),
            entity@ == EntityModel::initial(
                id,
                bitmap,
                Coords { x: 0, y: 0 },
                Coords { x: 0, y: 0 },
                0,
                bounds@,
                BoundsAction::Stop,
            ),
    {
        Entity::new(id, bitmap, PointF::zero(), PointF::zero(), 0, bounds, BoundsAction::Stop)
    }

    /// Creates an entity at `position`, at rest, with z-order 0 and the given
    /// boundary policy.
    pub fn with_bounds_action(
        id: u32,
        bitmap: BitmapSize,
        position: PointF,
        bounds: Rect,
        bounds_action: BoundsAction,
    ) -> (entity: Entity)
        requires
            EntityModel::admits(bitmap, position@, Coords { x: 0, y: 0 }, bounds@),
        ensures
            entity.wf(),
            entity@ == EntityModel::initial(
                id,
                bitmap,
                position@,
                Coords { x: 0, y: 0 },
                0,
                bounds@,
                bounds_action,
            ),
    {
        Entity::new(id, bitmap, position, PointF::zero(), 0, bounds, bounds_action)
    }

    /// Derives the collision box from the bounding box.
    fn calc_collision_rect(&mut self)
        ensures
            final(self).collision@ == collision_of(old(self).position@),
            *final(self) == (Entity { collision: final(self).collision, ..*old(self) }),
    {
        self.collision = collision_rect(&self.position);
    }

    /// Advances the entity by one tick of `elapsed` time units and says what
    /// the owning collection must do with it.
    pub fn update(&mut self, elapsed: i64) -> (action: SpriteAction)
        requires
            old(self).wf(),
        ensures
            final(self).wf(),
            (final(self)@, action) == old(self)@.step(elapsed as int),
    {
        if self.dying() {
            return SpriteAction::Kill;
        }
        self.update_frame();
        self.seek_target();
        self.travel(elapsed)
    }

    /// Puts an entity at rest onto its target, if it has one.
    fn seek_target(&mut self)
        requires
            old(self).wf(),
        ensures
            final(self).wf(),
            final(self)@ == old(self)@.seek_target(),
    {
        if let Some(target) = self.target_position {
            if self.velocity.x == 0 && self.velocity.y == 0 {
                if target.x != self.position.left || target.y != self.position.top {
                    self.set_position_point(&target);
                }
            }
        }
    }

    /// Moves the entity by its velocity over `elapsed`, subject to the
    /// boundary policy.
    fn travel(&mut self, elapsed: i64) -> (action: SpriteAction)
        requires
            old(self).wf(),
        ensures
            final(self).wf(),
            (final(self)@, action) == old(self)@.travel(elapsed as int),
    {
        let to_x: i128 = reach(self.position.left, self.velocity.x, elapsed);
        let to_y: i128 = reach(self.position.top, self.velocity.y, elapsed);
        let width: i64 = self.position.right - self.position.left;
        let height: i64 = self.position.bottom - self.position.top;
        match resolve_bounds(
            self.bounds_action,
            &self.bounds,
            width,
            height,
            to_x,
            to_y,
            self.velocity,
        ) {
            Resolution::Remove => SpriteAction::Kill,
            Resolution::Place { position, velocity } => {
                self.velocity = velocity;
                self.set_position_point(&position);
                SpriteAction::NoAction
            },
        }
    }

    /// Plans the drawing of the entity: the commands that a surface must
    /// carry out, in order. The entity is not changed.
    pub fn draw(&self) -> (plan: Vec<DrawCommand>)
        ensures
            carries_out(plan@, self@.draw_plan()),
    {
        let mut plan: Vec<DrawCommand> = Vec::new();
        if self.hidden {
            return plan;
        }
        let at = Point {
            x: saturate(to_pixel(self.position.left as i128)),
            y: saturate(to_pixel(self.position.top as i128)),
        };
        let below: i128 = to_pixel(self.position.bottom as i128);
        if self.num_frames == 1 {
            plan.push(DrawCommand::ImageAt { at });
        } else {
            let frame_height: i32 = self.height();
            assert(-0x4000_0000_0000_0000 <= self.cur_frame * frame_height
                <= 0x4000_0000_0000_0000) by (nonlinear_arith)
                requires
                    -0x8000_0000 <= self.cur_frame <= 0x7fff_ffff,
                    -0x8000_0000 <= frame_height <= 0x7fff_ffff,
            ;
            let down: i128 = (self.cur_frame as i128) * (frame_height as i128);
            plan.push(
                DrawCommand::Image {
                    source: Point { x: 0, y: saturate(down) },
                    width: self.bitmap.width,
                    height: frame_height,
                    at,
                },
            );
        }
        plan.push(DrawCommand::FillStyle { color: String::from_str("#ccccff") });
        plan.push(DrawCommand::Font { font: String::from_str("16px 微软雅黑") });
        if !self.name.as_str().is_empty() && self.score >= 0 {
            let score: String = format_score(self.score as u32);
            let bytes: i128 = byte_len(self.name.as_str()) as i128 + byte_len(score.as_str()) as i128;
            let width: i128 = to_pixel(self.position.right as i128 - self.position.left as i128);
            let x: i128 = to_pixel(self.position.left as i128) + width / 2 - (LABEL_BYTE_WIDTH
                * bytes) / 2;
            let mut text: String = self.name.clone();
            text.append(score.as_str());
            plan.push(
                DrawCommand::FillText {
                    text,
                    at: Point {
                        x: saturate(x),
                        y: saturate(to_pixel(self.position.top as i128) - LABEL_RISE),
                    },
                },
            );
        }
        let color: String = if self.lives > LIVES_FEW {
            String::from_str("#ffff00")
        } else {
            String::from_str("#ff0000")
        };
        plan.push(DrawCommand::FillStyle { color });
        plan.push(
            DrawCommand::FillText {
                text: format_lives(self.lives),
                at: Point { x: at.x, y: saturate(below + LIVES_DROP) },
            },
        );
        proof {
            let ops = self@.draw_plan();
            assert(plan@[0]@ == self@.image_op());
            assert(plan@[1]@ == ops[1]);
            assert(plan@[2]@ == ops[2]);
            if self@.has_label() {
                assert(plan@[3]@ == self@.label_op());
                assert(plan@[4]@ == ops[4]);
                assert(plan@[5]@ == self@.lives_op());
            } else {
                assert(plan@[3]@ == ops[3]);
                assert(plan@[4]@ == self@.lives_op());
            }
        }
        plan
    }

    /// Runs one tick of the frame animation.
    pub fn update_frame(&mut self)
        requires
            old(self).wf(),
            old(self)@.frame_due() ==> old(self)@.cur_frame < i32::MAX,
        ensures
            final(self).wf(),
            final(self)@ == old(self)@.advance_frame(),
    {
        if self.frame_trigger > i32::MIN {
            self.frame_trigger = self.frame_trigger - 1;
        }
        if self.frame_delay >= 0 && self.frame_trigger <= 0 {
            self.frame_trigger = self.frame_delay;
            self.cur_frame = self.cur_frame + 1;
            if self.cur_frame >= self.num_frames {
                if self.one_cycle {
                    self.lifecycle = Lifecycle::PendingKill;
                } else {
                    self.cur_frame = 0;
                }
            }
        }
    }

    /// Sets the number of ticks between frames; a negative delay turns the
    /// animation off.
    pub fn set_frame_delay(&mut self, frame_delay: i32)
        requires
            old(self).wf(),
        ensures
            final(self).wf(),
            final(self)@ == (EntityModel { frame_delay: frame_delay as int, ..old(self)@ }),
    {
        self.frame_delay = frame_delay;
    }

    pub fn set_velocity(&mut self, x: i64, y: i64)
        requires
            old(self).wf(),
            x > i64::MIN,
            y > i64::MIN,
        ensures
            final(self).wf(),
            final(self)@ == (EntityModel {
                velocity: Coords { x: x as int, y: y as int },
                ..old(self)@
            }),
    {
        self.velocity.x = x;
        self.velocity.y = y;
    }

    pub fn set_velocity_point(&mut self, velocity: &PointF)
        requires
            old(self).wf(),
            velocity.x > i64::MIN,
            velocity.y > i64::MIN,
        ensures
            final(self).wf(),
            final(self)@ == (EntityModel { velocity: velocity@, ..old(self)@ }),
    {
        self.velocity.x = velocity.x;
        self.velocity.y = velocity.y;
    }

    pub fn velocity(&self) -> (v: &PointF)
        ensures
            v@ == self@.velocity,
    {
        &self.velocity
    }

    /// Moves the entity, without resizing it, so that its top-left corner is
    /// at `position`, and rederives the collision box.
    pub fn set_position_point(&mut self, position: &PointF)
        requires
            old(self).wf(),
            position@.within(2 * COORD_LIMIT),
        ensures
            final(self).wf(),
            final(self)@ == old(self)@.placed_at(position.x as int, position.y as int),
    {
        let dx: i64 = position.x - self.position.left;
        let dy: i64 = position.y - self.position.top;
        self.position.offset(dx, dy);
        self.calc_collision_rect();
    }

    /// Moves the entity, without resizing it, so that its top-left corner is
    /// at `(x, y)`, and rederives the collision box.
    pub fn set_position(&mut self, x: i64, y: i64)
        requires
            old(self).wf(),
            (Coords { x: x as int, y: y as int }).within(2 * COORD_LIMIT),
        ensures
            final(self).wf(),
            final(self)@ == old(self)@.placed_at(x as int, y as int),
    {
        let dx: i64 = x - self.position.left;
        let dy: i64 = y - self.position.top;
        self.position.offset(dx, dy);
        self.calc_collision_rect();
    }

    /// Whether the collision box and `test` share a point; touching edges
    /// count.
    pub fn test_collison(&self, test: &Rect) -> (hit: bool)
        ensures
            hit == self@.collision.overlaps(test@),
    {
        self.collision.left <= test.right && test.left <= self.collision.right
            && self.collision.top <= test.bottom && test.top <= self.collision.bottom
    }

    /// Whether `(x, y)` lies in the bounding box, edges included.
    pub fn is_point_inside(&self, x: i64, y: i64) -> (inside: bool)
        ensures
            inside == self@.position.contain(x as int, y as int),
    {
        self.position.contain(x, y)
    }

    /// Height in pixels of one animation frame.
    pub fn height(&self) -> (h: i32)
        ensures
            h == self@.frame_height(),
    {
        if self.num_frames > 0 {
            self.bitmap.height / self.num_frames
        } else {
            self.bitmap.height
        }
    }

    /// Width in pixels of the bitmap, which is that of every frame.
    pub fn width(&self) -> (w: i32)
        ensures
            w == self@.bitmap.width,
    {
        self.bitmap.width
    }

    pub fn bitmap(&self) -> (b: &BitmapSize)
        ensures
            *b == self@.bitmap,
    {
        &self.bitmap
    }

    /// Sets the frame count and whether the animation plays once, and
    /// shrinks the bounding box to the height of one frame. Any count is
    /// taken; a count of zero leaves the bounding box as it is.
    pub fn set_num_frames(&mut self, num_frames: i32, one_cycle: bool)
        requires
            old(self).wf(),
        ensures
            final(self).wf(),
            final(self)@ == old(self)@.with_frames(num_frames as int, one_cycle),
    {
        self.num_frames = num_frames;
        self.one_cycle = one_cycle;
        let span: i64 = self.position.bottom - self.position.top;
        let frame: i64 = if num_frames == 0 {
            span
        } else {
            proof {
                lemma_quotient_bounded(span as int, num_frames as int);
            }
            divide(span, num_frames as i64)
        };
        self.position.bottom = self.position.top + frame;
        self.calc_collision_rect();
    }

    /// Replaces the bounding box and rederives the collision box.
    pub fn set_position_rect(&mut self, position: Rect)
        requires
            old(self).wf(),
            EntityModel::accepts(position@),
        ensures
            final(self).wf(),
            final(self)@ == old(self)@.with_position(position@),
    {
        self.position = position;
        self.calc_collision_rect();
    }

    /// The bounding box.
    pub fn position(&self) -> (r: &Rect)
        ensures
            r@ == self@.position,
    {
        &self.position
    }

    /// The collision box.
    pub fn collision(&self) -> (r: &Rect)
        ensures
            r@ == self@.collision,
    {
        &self.collision
    }

    pub fn id(&self) -> (id: u32)
        ensures
            id == self@.id,
    {
        self.id
    }

    pub fn parent_id(&self) -> (id: u32)
        ensures
            id == self@.parent_id,
    {
        self.parent_id
    }

    pub fn set_parent_id(&mut self, parent_id: u32)
        requires
            old(self).wf(),
        ensures
            final(self).wf(),
            final(self)@ == (EntityModel { parent_id, ..old(self)@ }),
    {
        self.parent_id = parent_id;
    }

    pub fn z_order(&self) -> (z: i32)
        ensures
            z == self@.z_order,
    {
        self.z_order
    }

    pub fn set_z_order(&mut self, z_order: i32)
        requires
            old(self).wf(),
        ensures
            final(self).wf(),
            final(self)@ == (EntityModel { z_order: z_order as int, ..old(self)@ }),
    {
        self.z_order = z_order;
    }

    /// Index of the frame that is shown.
    pub fn cur_frame(&self) -> (frame: i32)
        ensures
            frame == self@.cur_frame,
    {
        self.cur_frame
    }

    /// Shows frame `frame`; the countdown to the next frame is not touched.
    pub fn set_cur_frame(&mut self, frame: i32)
        requires
            old(self).wf(),
            0 <= frame < i32::MAX,
        ensures
            final(self).wf(),
            final(self)@ == old(self)@.with_cur_frame(frame as int),
    {
        self.cur_frame = frame;
    }

    pub fn hidden(&self) -> (hidden: bool)
        ensures
            hidden == self@.hidden,
    {
        self.hidden
    }

    /// Hides or shows the entity. A hidden entity is simulated as before and
    /// draws nothing.
    pub fn set_hidden(&mut self, hidden: bool)
        requires
            old(self).wf(),
        ensures
            final(self).wf(),
            final(self)@ == (EntityModel { hidden, ..old(self)@ }),
    {
        self.hidden = hidden;
    }

    pub fn name(&self) -> (name: &String)
        ensures
            name@ == self@.name,
    {
        &self.name
    }

    pub fn set_name(&mut self, name: String)
        requires
            old(self).wf(),
        ensures
            final(self).wf(),
            final(self)@ == (EntityModel { name: name@, ..old(self)@ }),
    {
        self.name = name;
    }

    /// Records who killed the entity.
    pub fn set_killer(&mut self, killer_id: u32, killer_name: String)
        requires
            old(self).wf(),
        ensures
            final(self).wf(),
            final(self)@ == (EntityModel { killer_id, killer_name: killer_name@, ..old(self)@ }),
    {
        self.killer_id = killer_id;
        self.killer_name = killer_name;
    }

    pub fn killer_id(&self) -> (id: u32)
        ensures
            id == self@.killer_id,
    {
        self.killer_id
    }

    pub fn killer_name(&self) -> (name: &String)
        ensures
            name@ == self@.killer_name,
    {
        &self.killer_name
    }

    /// Whether the next tick will report `Kill`.
    pub fn dying(&self) -> (dying: bool)
        ensures
            dying == self@.dying(),
    {
        match self.lifecycle {
            Lifecycle::Alive => false,
            Lifecycle::PendingKill => true,
        }
    }

    pub fn lifecycle(&self) -> (lifecycle: Lifecycle)
        ensures
            lifecycle == self@.lifecycle,
    {
        self.lifecycle
    }

    /// Marks the entity for removal. Nothing else changes; the next tick
    /// reports `Kill`.
    pub fn kill(&mut self)
        requires
            old(self).wf(),
        ensures
            final(self).wf(),
            final(self)@ == old(self)@.killed(),
    {
        self.lifecycle = Lifecycle::PendingKill;
    }

    pub fn add_score(&mut self)
        requires
            old(self).wf(),
            old(self)@.score < i32::MAX,
        ensures
            final(self).wf(),
            final(self)@ == (EntityModel { score: old(self)@.score + 1, ..old(self)@ }),
    {
        self.score = self.score + 1;
    }

    pub fn set_score(&mut self, score: i32)
        requires
            old(self).wf(),
        ensures
            final(self).wf(),
            final(self)@ == (EntityModel { score: score as int, ..old(self)@ }),
    {
        self.score = score;
    }

    pub fn score(&self) -> (score: i32)
        ensures
            score == self@.score,
    {
        self.score
    }

    pub fn set_lives(&mut self, lives: u32)
        requires
            old(self).wf(),
        ensures
            final(self).wf(),
            final(self)@ == (EntityModel { lives: lives as nat, ..old(self)@ }),
    {
        self.lives = lives;
    }

    pub fn lives(&self) -> (lives: u32)
        ensures
            lives == self@.lives,
    {
        self.lives
    }

    pub fn set_rotation(&mut self, rotation: i64)
        requires
            old(self).wf(),
        ensures
            final(self).wf(),
            final(self)@ == (EntityModel { rotation: rotation as int, ..old(self)@ }),
    {
        self.rotation = rotation;
    }

    /// Sets the place that the entity jumps to once it is at rest.
    pub fn set_target_position(&mut self, target: PointF)
        requires
            old(self).wf(),
            target@.within(2 * COORD_LIMIT),
        ensures
            final(self).wf(),
            final(self)@ == (EntityModel { target: Some(target@), ..old(self)@ }),
    {
        self.target_position = Some(target);
    }
}

} // verus!
