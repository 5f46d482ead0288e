//! The mathematical model of an entity and its transition function.
//!
//! Everything here is ghost code over unbounded integers; the only machine
//! limits are the ones that [`EntityModel::valid`] names.

use vstd::prelude::*;
use crate::actions::{BoundsAction, Lifecycle, SpriteAction};
use crate::arith::{quotient, UNITS_PER_PIXEL};
use crate::bounds::{resolve, COORD_LIMIT};
use crate::geometry::{Coords, Region};

verus! {

/// The part of a bitmap that the simulation reads: its size in pixels.
#[derive(Clone, Copy, Debug, PartialEq, Eq, Structural)]
pub struct BitmapSize {
    pub width: i32,
    pub height: i32,
}

/// The collision box of a bounding box: each side moved inward by a twelfth
/// of the box's own span on that axis, the twelfth rounded toward zero.
pub open spec fn collision_of(position: Region) -> Region {
    position.inflate(
        quotient(position.left - position.right, 12),
        quotient(position.top - position.bottom, 12),
    )
}

/// What an [`Entity`](crate::entity::Entity) is, as a mathematical value.
pub struct EntityModel {
    pub id: u32,
    pub parent_id: u32,
    pub bitmap: BitmapSize,
    pub num_frames: int,
    pub cur_frame: int,
    pub frame_delay: int,
    pub frame_trigger: int,
    pub one_cycle: bool,
    pub position: Region,
    pub collision: Region,
    pub target: Option<Coords>,
    pub bounds: Region,
    pub velocity: Coords,
    pub z_order: int,
    pub bounds_action: BoundsAction,
    pub hidden: bool,
    pub lifecycle: Lifecycle,
    pub name: Seq<char>,
    pub score: int,
    pub killer_id: u32,
    pub killer_name: Seq<char>,
    pub lives: nat,
    pub rotation: int,
}

impl EntityModel {
    /// Whether the entity has been killed and awaits removal.
    pub open spec fn dying(self) -> bool {
        self.lifecycle == Lifecycle::PendingKill
    }

    /// Every number fits the machine type that holds it, and a velocity can
    /// be reversed.
    pub open spec fn representable(self) -> bool {
        &&& i32::MIN <= self.num_frames <= i32::MAX
        &&& i32::MIN <= self.cur_frame <= i32::MAX
        &&& i32::MIN <= self.frame_delay <= i32::MAX
        &&& i32::MIN <= self.frame_trigger <= i32::MAX
        &&& i32::MIN <= self.z_order <= i32::MAX
        &&& i32::MIN <= self.score <= i32::MAX
        &&& self.lives <= u32::MAX
        &&& i64::MIN <= self.rotation <= i64::MAX
        &&& i64::MIN < self.velocity.x <= i64::MAX
        &&& i64::MIN < self.velocity.y <= i64::MAX
    }

    /// The arena and the entity's sides stay within [`COORD_LIMIT`], and the
    /// entity and its target within twice that of the origin.
    pub open spec fn in_reach(self) -> bool {
        &&& self.bounds.within(COORD_LIMIT as int)
        &&& Self::accepts(self.position)
        &&& self.target matches Some(t) ==> t.within(2 * COORD_LIMIT)
    }

    /// The invariant of every entity: the numbers fit, the collision box is
    /// the one derived from the bounding box, and a live entity can still
    /// count one frame further.
    pub open spec fn valid(self) -> bool {
        &&& self.representable()
        &&& self.in_reach()
        &&& self.collision == collision_of(self.position)
        &&& 0 <= self.cur_frame
        &&& !self.dying() ==> self.cur_frame < i32::MAX
    }

    /// Whether an entity can be created from these: the arena, the bitmap's
    /// size in fine units and the starting corner are within the limits that
    /// [`EntityModel::in_reach`] sets, and the velocity can be reversed.
    pub open spec fn admits(
        bitmap: BitmapSize,
        position: Coords,
        velocity: Coords,
        bounds: Region,
    ) -> bool {
        &&& bounds.within(COORD_LIMIT as int)
        &&& -COORD_LIMIT <= bitmap.width * UNITS_PER_PIXEL <= COORD_LIMIT
        &&& -COORD_LIMIT <= bitmap.height * UNITS_PER_PIXEL <= COORD_LIMIT
        &&& position.within(2 * COORD_LIMIT)
        &&& i64::MIN < velocity.x <= i64::MAX
        &&& i64::MIN < velocity.y <= i64::MAX
    }

    /// Whether `position` can be an entity's bounding box: its corner and its
    /// sides are within the limits that [`EntityModel::in_reach`] sets.
    pub open spec fn accepts(position: Region) -> bool {
        &&& -COORD_LIMIT <= position.width() <= COORD_LIMIT
        &&& -COORD_LIMIT <= position.height() <= COORD_LIMIT
        &&& -2 * COORD_LIMIT <= position.left <= 2 * COORD_LIMIT
        &&& -2 * COORD_LIMIT <= position.top <= 2 * COORD_LIMIT
    }

    /// A fresh entity: one frame, no animation delay, visible, alive, and a
    /// bounding box of the bitmap's size with its corner at `position`.
    pub open spec fn initial(
        id: u32,
        bitmap: BitmapSize,
        position: Coords,
        velocity: Coords,
        z_order: int,
        bounds: Region,
        bounds_action: BoundsAction,
    ) -> EntityModel {
        let area = Region {
            left: position.x,
            top: position.y,
            right: position.x + bitmap.width * UNITS_PER_PIXEL,
            bottom: position.y + bitmap.height * UNITS_PER_PIXEL,
        };
        EntityModel {
            id,
            parent_id: 0,
            bitmap,
            num_frames: 1,
            cur_frame: 0,
            frame_delay: 0,
            frame_trigger: 0,
            one_cycle: false,
            position: area,
            collision: collision_of(area),
            target: None,
            bounds,
            velocity,
            z_order,
            bounds_action,
            hidden: false,
            lifecycle: Lifecycle::Alive,
            name: Seq::empty(),
            score: 0,
            killer_id: 0,
            killer_name: Seq::empty(),
            lives: 0,
            rotation: 0,
        }
    }

    /// The entity moved, without resizing, so that its top-left corner is at
    /// `(x, y)`.
    pub open spec fn placed_at(self, x: int, y: int) -> EntityModel {
        self.with_position(self.position.moved_to(x, y))
    }

    /// The entity with a new bounding box and the collision box that goes
    /// with it.
    pub open spec fn with_position(self, position: Region) -> EntityModel {
        EntityModel { position, collision: collision_of(position), ..self }
    }

    /// The frame countdown after one tick. It stops at the least `i32`.
    pub open spec fn countdown(self) -> int {
        if self.frame_trigger > i32::MIN {
            self.frame_trigger - 1
        } else {
            self.frame_trigger
        }
    }

    /// Whether this tick shows the next frame: animation is enabled and the
    /// countdown has run out.
    pub open spec fn frame_due(self) -> bool {
        self.frame_delay >= 0 && self.countdown() <= 0
    }

    /// One tick of animation. When a frame is due the countdown restarts and
    /// the frame index moves on; past the last frame it returns to the first,
    /// or, in a one-cycle animation, stays and marks the entity dying.
    pub open spec fn advance_frame(self) -> EntityModel {
        if !self.frame_due() {
            EntityModel { frame_trigger: self.countdown(), ..self }
        } else if self.cur_frame + 1 < self.num_frames {
            EntityModel {
                frame_trigger: self.frame_delay,
                cur_frame: self.cur_frame + 1,
                ..self
            }
        } else if self.one_cycle {
            EntityModel {
                frame_trigger: self.frame_delay,
                cur_frame: self.cur_frame + 1,
                lifecycle: Lifecycle::PendingKill,
                ..self
            }
        } else {
            EntityModel { frame_trigger: self.frame_delay, cur_frame: 0, ..self }
        }
    }

    /// The entity after `ticks` ticks of animation alone.
    pub open spec fn after_frames(self, ticks: nat) -> EntityModel
        decreases ticks,
    {
        if ticks == 0 {
            self
        } else {
            self.after_frames((ticks - 1) as nat).advance_frame()
        }
    }

    /// Whether the entity stands still.
    pub open spec fn at_rest(self) -> bool {
        self.velocity.x == 0 && self.velocity.y == 0
    }

    /// An entity at rest that has a target stands at the target; any other
    /// entity stays where it is.
    pub open spec fn seek_target(self) -> EntityModel {
        match self.target {
            Some(t) if self.at_rest() => self.placed_at(t.x, t.y),
            _ => self,
        }
    }

    /// Where unhindered movement over `elapsed` would carry the top-left
    /// corner.
    pub open spec fn destination(self, elapsed: int) -> Coords {
        Coords {
            x: self.position.left + self.velocity.x * elapsed,
            y: self.position.top + self.velocity.y * elapsed,
        }
    }

    /// Movement over `elapsed` under the entity's boundary policy: the state
    /// after it and whether the entity survives.
    pub open spec fn travel(self, elapsed: int) -> (EntityModel, SpriteAction) {
        let to = self.destination(elapsed);
        match resolve(
            self.bounds_action,
            self.bounds,
            self.position.width(),
            self.position.height(),
            to.x,
            to.y,
            self.velocity,
        ) {
            None => (self, SpriteAction::Kill),
            Some(p) => (
                EntityModel { velocity: p.velocity, ..self }.placed_at(p.x, p.y),
                SpriteAction::NoAction,
            ),
        }
    }

    /// One tick. A dying entity reports `Kill` and changes nothing. A live
    /// one animates, seeks its target, and travels.
    pub open spec fn step(self, elapsed: int) -> (EntityModel, SpriteAction) {
        if self.dying() {
            (self, SpriteAction::Kill)
        } else {
            self.advance_frame().seek_target().travel(elapsed)
        }
    }

    /// The entity marked for removal at its next tick.
    pub open spec fn killed(self) -> EntityModel {
        EntityModel { lifecycle: Lifecycle::PendingKill, ..self }
    }

    /// Height in pixels of one animation frame of the bitmap.
    pub open spec fn frame_height(self) -> int {
        if self.num_frames > 0 {
            quotient(self.bitmap.height as int, self.num_frames)
        } else {
            self.bitmap.height as int
        }
    }

    /// The height of one of `num_frames` equal slices of a box `height`
    /// high, rounded toward zero. A count of zero does not slice: the height
    /// stays.
    pub open spec fn slice_height(height: int, num_frames: int) -> int {
        if num_frames == 0 {
            height
        } else {
            quotient(height, num_frames)
        }
    }

    /// The entity after its frame count is set: the count and the one-cycle
    /// flag are stored as given, and the bounding box keeps its top and takes
    /// the height of one slice of its former height.
    pub open spec fn with_frames(self, num_frames: int, one_cycle: bool) -> EntityModel {
        EntityModel { num_frames, one_cycle, ..self }.with_position(
            Region {
                bottom: self.position.top + Self::slice_height(
                    self.position.height(),
                    num_frames,
                ),
                ..self.position
            },
        )
    }

    /// The entity showing frame `frame`.
    pub open spec fn with_cur_frame(self, frame: int) -> EntityModel {
        EntityModel { cur_frame: frame, ..self }
    }
}

} // verus!
