//! The four boundary policies, one axis at a time, and their combination.
//!
//! On an axis the arena runs from `lo` to `hi`, the entity is `size` long and
//! `x` is where its leading edge would be after unhindered movement.

use vstd::prelude::*;
use vstd::math::{max, min};
use crate::actions::BoundsAction;
use crate::geometry::{Coords, PointF, Rect, Region};

verus! {

/// Largest magnitude of an arena edge and of an entity's side, in fine units.
pub const COORD_LIMIT: i64 = 0x40_0000_0000;

/// Largest magnitude of a destination handed to [`resolve_bounds`].
pub const REACH: i128 = 0x4000_0000_0000_0000_0000_0000_0000_0000;

/// Stop: the entity does not fit between the edges at `x`.
pub open spec fn stop_hits(x: int, lo: int, hi: int, size: int) -> bool {
    x < lo || x > hi - size
}

/// Stop: `x` brought into `[lo, hi - size]`; `lo` wins where that range is
/// empty.
pub open spec fn stop_axis(x: int, lo: int, hi: int, size: int) -> int {
    max(lo, min(x, hi - size))
}

/// Wrap: an entity wholly before `lo` restarts at `hi`, one wholly past `hi`
/// restarts with its far edge at `lo`.
pub open spec fn wrap_axis(x: int, lo: int, hi: int, size: int) -> int {
    if x + size < lo {
        hi
    } else if x > hi {
        lo - size
    } else {
        x
    }
}

/// Bounce: the entity pokes out at either end.
pub open spec fn bounce_hits(x: int, lo: int, hi: int, size: int) -> bool {
    x < lo || x + size > hi
}

/// Bounce: the entity is laid against the edge it crossed, the low edge first.
pub open spec fn bounce_axis(x: int, lo: int, hi: int, size: int) -> int {
    if x < lo {
        lo
    } else if x + size > hi {
        hi - size
    } else {
        x
    }
}

/// Die: the entity lies wholly before `lo` or wholly past `hi`. Touching an
/// edge is not outside.
pub open spec fn outside_axis(x: int, lo: int, hi: int, size: int) -> bool {
    x + size < lo || x > hi
}

/// Where a policy puts an entity, and the velocity it is left with.
pub struct Placement {
    pub x: int,
    pub y: int,
    pub velocity: Coords,
}

/// The outcome of `action` for an entity of the given size headed for
/// `(x, y)` with `velocity`: `None` when the entity is to be removed.
pub open spec fn resolve(
    action: BoundsAction,
    bounds: Region,
    width: int,
    height: int,
    x: int,
    y: int,
    velocity: Coords,
) -> Option<Placement> {
    match action {
        BoundsAction::Stop => Some(
            Placement {
                x: stop_axis(x, bounds.left, bounds.right, width),
                y: stop_axis(y, bounds.top, bounds.bottom, height),
                velocity: if stop_hits(x, bounds.left, bounds.right, width) || stop_hits(
                    y,
                    bounds.top,
                    bounds.bottom,
                    height,
                ) {
                    Coords { x: 0, y: 0 }
                } else {
                    velocity
                },
            },
        ),
        BoundsAction::Wrap => Some(
            Placement {
                x: wrap_axis(x, bounds.left, bounds.right, width),
                y: wrap_axis(y, bounds.top, bounds.bottom, height),
                velocity,
            },
        ),
        BoundsAction::Bounce => Some(
            Placement {
                x: bounce_axis(x, bounds.left, bounds.right, width),
                y: bounce_axis(y, bounds.top, bounds.bottom, height),
                velocity: Coords {
                    x: if bounce_hits(x, bounds.left, bounds.right, width) {
                        -velocity.x
                    } else {
                        velocity.x
                    },
                    y: if bounce_hits(y, bounds.top, bounds.bottom, height) {
                        -velocity.y
                    } else {
                        velocity.y
                    },
                },
            },
        ),
        BoundsAction::Die => if outside_axis(x, bounds.left, bounds.right, width) || outside_axis(
            y,
            bounds.top,
            bounds.bottom,
            height,
        ) {
            None
        } else {
            Some(Placement { x, y, velocity })
        },
    }
}

/// Whatever the policy and however far the destination, an entity that is
/// kept ends up within reach of its arena.
pub proof fn lemma_resolve_stays_near(
    action: BoundsAction,
    bounds: Region,
    width: int,
    height: int,
    x: int,
    y: int,
    velocity: Coords,
    limit: int,
)
    requires
        bounds.within(limit),
        -limit <= width <= limit,
        -limit <= height <= limit,
    ensures
        resolve(action, bounds, width, height, x, y, velocity) matches Some(p) ==> {
            &&& -2 * limit <= p.x <= 2 * limit
            &&& -2 * limit <= p.y <= 2 * limit
        },
{
}

/// The executable outcome of a boundary policy.
#[derive(Clone, Copy, Debug, PartialEq, Eq, Structural)]
pub enum Resolution {
    /// The entity left the arena under [`BoundsAction::Die`].
    Remove,
    /// The entity goes to `position` and keeps `velocity`.
    Place { position: PointF, velocity: PointF },
}

impl View for Resolution {
    type V = Option<Placement>;

    open spec fn view(&self) -> Option<Placement> {
        match *self {
            Resolution::Remove => None,
            Resolution::Place { position, velocity } => Some(
                Placement { x: position.x as int, y: position.y as int, velocity: velocity@ },
            ),
        }
    }
}

fn stop_on_axis(x: i128, lo: i64, hi: i64, size: i64) -> (r: (i64, bool))
    requires
        -COORD_LIMIT <= lo <= COORD_LIMIT,
        -COORD_LIMIT <= hi <= COORD_LIMIT,
        -COORD_LIMIT <= size <= COORD_LIMIT,
    ensures
        r.0 == stop_axis(x as int, lo as int, hi as int, size as int),
        r.1 == stop_hits(x as int, lo as int, hi as int, size as int),
{
    let room: i64 = hi - size;
    if x < lo as i128 {
        (lo, true)
    } else if x > room as i128 {
        if room < lo {
            (lo, true)
        } else {
            (room, true)
        }
    } else {
        (x as i64, false)
    }
}

fn wrap_on_axis(x: i128, lo: i64, hi: i64, size: i64) -> (r: i64)
    requires
        -COORD_LIMIT <= lo <= COORD_LIMIT,
        -COORD_LIMIT <= hi <= COORD_LIMIT,
        -COORD_LIMIT <= size <= COORD_LIMIT,
        -REACH <= x <= REACH,
    ensures
        r == wrap_axis(x as int, lo as int, hi as int, size as int),
{
    if x + (size as i128) < lo as i128 {
        hi
    } else if x > hi as i128 {
        lo - size
    } else {
        x as i64
    }
}

fn bounce_on_axis(x: i128, lo: i64, hi: i64, size: i64) -> (r: (i64, bool))
    requires
        -COORD_LIMIT <= lo <= COORD_LIMIT,
        -COORD_LIMIT <= hi <= COORD_LIMIT,
        -COORD_LIMIT <= size <= COORD_LIMIT,
        -REACH <= x <= REACH,
    ensures
        r.0 == bounce_axis(x as int, lo as int, hi as int, size as int),
        r.1 == bounce_hits(x as int, lo as int, hi as int, size as int),
{
    if x < lo as i128 {
        (lo, true)
    } else if x + (size as i128) > hi as i128 {
        (hi - size, true)
    } else {
        (x as i64, false)
    }
}

fn is_outside_on_axis(x: i128, lo: i64, hi: i64, size: i64) -> (out: bool)
    requires
        -COORD_LIMIT <= size <= COORD_LIMIT,
        -REACH <= x <= REACH,
    ensures
        out == outside_axis(x as int, lo as int, hi as int, size as int),
{
    x + (size as i128) < lo as i128 || x > hi as i128
}

/// Applies `action` to an entity of the given size that unhindered movement
/// would carry to `(x, y)`.
pub fn resolve_bounds(
    action: BoundsAction,
    bounds: &Rect,
    width: i64,
    height: i64,
    x: i128,
    y: i128,
    velocity: PointF,
) -> (r: Resolution)
    requires
        bounds@.within(COORD_LIMIT as int),
        -COORD_LIMIT <= width <= COORD_LIMIT,
        -COORD_LIMIT <= height <= COORD_LIMIT,
        -REACH <= x <= REACH,
        -REACH <= y <= REACH,
        velocity.x > i64::MIN,
        velocity.y > i64::MIN,
    ensures
        r@ == resolve(action, bounds@, width as int, height as int, x as int, y as int, velocity@),
        r matches Resolution::Place { position, velocity: left_with } ==> {
            &&& -2 * COORD_LIMIT <= position.x <= 2 * COORD_LIMIT
            &&& -2 * COORD_LIMIT <= position.y <= 2 * COORD_LIMIT
            &&& left_with.x > i64::MIN
            &&& left_with.y > i64::MIN
        },
{
    proof {
        lemma_resolve_stays_near(
            action,
            bounds@,
            width as int,
            height as int,
            x as int,
            y as int,
            velocity@,
            COORD_LIMIT as int,
        );
    }
    match action {
        BoundsAction::Stop => {
            let (px, hit_x) = stop_on_axis(x, bounds.left, bounds.right, width);
            let (py, hit_y) = stop_on_axis(y, bounds.top, bounds.bottom, height);
            let left_with = if hit_x || hit_y {
                PointF { x: 0, y: 0 }
            } else {
                velocity
            };
            Resolution::Place { position: PointF { x: px, y: py }, velocity: left_with }
        },
        BoundsAction::Wrap => {
            let px: i64 = wrap_on_axis(x, bounds.left, bounds.right, width);
            let py: i64 = wrap_on_axis(y, bounds.top, bounds.bottom, height);
            Resolution::Place { position: PointF { x: px, y: py }, velocity }
        },
        BoundsAction::Bounce => {
            let (px, hit_x) = bounce_on_axis(x, bounds.left, bounds.right, width);
            let (py, hit_y) = bounce_on_axis(y, bounds.top, bounds.bottom, height);
            let vx: i64 = if hit_x {
                -velocity.x
            } else {
                velocity.x
            };
            let vy: i64 = if hit_y {
                -velocity.y
            } else {
                velocity.y
            };
            Resolution::Place {
                position: PointF { x: px, y: py },
                velocity: PointF { x: vx, y: vy },
            }
        },
        BoundsAction::Die => {
            if is_outside_on_axis(x, bounds.left, bounds.right, width) || is_outside_on_axis(
                y,
                bounds.top,
                bounds.bottom,
                height,
            ) {
                Resolution::Remove
            } else {
                Resolution::Place { position: PointF { x: x as i64, y: y as i64 }, velocity }
            }
        },
    }
}

} // verus!
