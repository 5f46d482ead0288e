//! A per-tick sprite engine core: a movable, animated, collidable entity with
//! four boundary policies, an inset collision box and a drawing plan.
//!
//! All coordinates are integers. Positions and sizes are counted in fine
//! units, [`UNITS_PER_PIXEL`] of them to one surface pixel; velocities are
//! fine units per unit of elapsed time.
//!
//! The behaviour of an [`Entity`] is stated over its mathematical model,
//! [`EntityModel`], which is what `entity@` denotes.

pub mod actions;
pub mod arith;
pub mod bounds;
pub mod draw;
pub mod entity;
pub mod geometry;
pub mod laws;
pub mod model;
pub mod sprite;

pub use actions::{BoundsAction, Lifecycle, SpriteAction};
pub use arith::UNITS_PER_PIXEL;
pub use bounds::{resolve_bounds, Resolution, COORD_LIMIT, REACH};
pub use draw::DrawCommand;
pub use entity::{collision_rect, Entity};
pub use geometry::{Point, PointF, Rect};
pub use model::{BitmapSize, EntityModel};
pub use sprite::Sprite;
