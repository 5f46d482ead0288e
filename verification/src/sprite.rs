//! The capability that a collection of sprites depends on.

use vstd::prelude::*;
use crate::actions::SpriteAction;
use crate::draw::{carries_out, DrawCommand, DrawOp};
use crate::entity::Entity;
use crate::geometry::{Rect, Region};
use crate::model::EntityModel;

verus! {

/// A visual object that a collection can store, advance and draw without
/// knowing what kind it is.
///
/// The `spec` functions say what a collection may rely on: the
/// implementor's invariant, its bounding and collision boxes, what it draws,
/// and whether it is waiting to be removed.
pub trait Sprite {
    /// The implementor's invariant.
    spec fn sound(&self) -> bool;

    /// The sprite has been killed and reports it at its next tick.
    spec fn pending_kill(&self) -> bool;

    /// The bounding box.
    spec fn area(&self) -> Region;

    /// The box that collisions are tested against.
    spec fn hit_area(&self) -> Region;

    /// Whether the sprite can take `position` as its bounding box.
    spec fn takes(&self, position: Region) -> bool;

    /// What the sprite draws.
    spec fn picture(&self) -> Seq<DrawOp>;

    /// The sprite's identity.
    spec fn identity(&self) -> u32;

    /// The sprite's place in the drawing order.
    spec fn depth(&self) -> int;

    /// Plans the drawing of the sprite.
    fn draw(&self) -> (plan: Vec<DrawCommand>)
        ensures
            carries_out(plan@, self.picture()),
    ;

    fn z_order(&self) -> (z: i32)
        ensures
            z == self.depth(),
    ;

    fn position(&self) -> (r: &Rect)
        ensures
            r@ == self.area(),
    ;

    /// Advances the sprite by one tick. A sprite that was killed reports
    /// `Kill` and stays as it is.
    fn update(&mut self, elapsed: i64) -> (action: SpriteAction)
        requires
            old(self).sound(),
        ensures
            final(self).sound(),
            final(self).identity() == old(self).identity(),
            old(self).pending_kill() ==> action == SpriteAction::Kill && final(self).pending_kill()
                && final(self).area() == old(self).area(),
    ;

    fn id(&self) -> (id: u32)
        ensures
            id == self.identity(),
    ;

    fn set_position_rect(&mut self, position: Rect)
        requires
            old(self).sound(),
            old(self).takes(position@),
        ensures
            final(self).sound(),
            final(self).area() == position@,
            final(self).pending_kill() == old(self).pending_kill(),
            final(self).identity() == old(self).identity(),
    ;

    /// Whether the sprite's collision box and `test` share a point.
    fn test_collison(&self, test: &Rect) -> (hit: bool)
        ensures
            hit == self.hit_area().overlaps(test@),
    ;

    /// Marks the sprite for removal at its next tick; it is not moved.
    fn kill(&mut self)
        requires
            old(self).sound(),
        ensures
            final(self).sound(),
            final(self).pending_kill(),
            final(self).area() == old(self).area(),
            final(self).identity() == old(self).identity(),
    ;
}

impl Sprite for Entity {
    open spec fn sound(&self) -> bool {
        self.wf()
    }

    open spec fn pending_kill(&self) -> bool {
        self@.dying()
    }

    open spec fn area(&self) -> Region {
        self@.position
    }

    open spec fn hit_area(&self) -> Region {
        self@.collision
    }

    open spec fn takes(&self, position: Region) -> bool {
        EntityModel::accepts(position)
    }

    open spec fn picture(&self) -> Seq<DrawOp> {
        self@.draw_plan()
    }

    open spec fn identity(&self) -> u32 {
        self@.id
    }

    open spec fn depth(&self) -> int {
        self@.z_order
    }

    fn draw(&self) -> (plan: Vec<DrawCommand>) {
        Entity::draw(self)
    }

    fn z_order(&self) -> (z: i32) {
        Entity::z_order(self)
    }

    fn position(&self) -> (r: &Rect) {
        Entity::position(self)
    }

    fn update(&mut self, elapsed: i64) -> (action: SpriteAction)
        ensures
            (final(self)@, action) == old(self)@.step(elapsed as int),
    {
        Entity::update(self, elapsed)
    }

    fn id(&self) -> (id: u32) {
        Entity::id(self)
    }

    fn set_position_rect(&mut self, position: Rect)
        ensures
            final(self)@ == old(self)@.with_position(position@),
    {
        Entity::set_position_rect(self, position)
    }

    fn test_collison(&self, test: &Rect) -> (hit: bool) {
        Entity::test_collison(self, test)
    }

    fn kill(&mut self)
        ensures
            final(self)@ == old(self)@.killed(),
    {
        Entity::kill(self)
    }
}

} // verus!
