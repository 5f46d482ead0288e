//! The vocabulary shared between a sprite and the collection that owns it.

use vstd::prelude::*;

verus! {

/// What a sprite asks of its owning collection after a tick.
#[derive(Clone, Copy, Debug, PartialEq, Eq, Structural)]
pub enum SpriteAction {
    /// Nothing to do; the sprite lives on.
    NoAction,
    /// The collection must remove the sprite.
    Kill,
    /// The collection should add a sprite. No path of this crate asks for it.
    AddSprite,
}

/// Where a sprite stands between creation and removal. A sprite is killed
/// one tick before it is removed: the kill only marks it, and the tick that
/// follows reports [`SpriteAction::Kill`], on which the owning collection
/// removes it.
#[derive(Clone, Copy, Debug, PartialEq, Eq, Structural)]
pub enum Lifecycle {
    /// Simulated and drawn as usual.
    Alive,
    /// Killed; the next tick reports it and changes nothing.
    PendingKill,
}

/// What happens when movement would carry an entity across its arena's edge.
#[derive(Clone, Copy, Debug, PartialEq, Eq, Structural)]
pub enum BoundsAction {
    /// Clamp into the arena and stand still.
    Stop,
    /// Leave on one side, come back on the other.
    Wrap,
    /// Clamp to the edge and reverse on the axis that hit.
    Bounce,
    /// Be removed once fully outside.
    Die,
}

} // verus!
