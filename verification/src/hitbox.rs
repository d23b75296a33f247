//! Axis-aligned bounding boxes and the overlap test the game plays by.

use vstd::prelude::*;
use crate::MAX_COORD;
use crate::MAX_EXTENT;

verus! {

/// An axis-aligned box: top-left corner plus extent, in sub-units. A hitbox
/// is a value recomputed each frame from its owner's position.
#[derive(Clone, Copy, PartialEq, Eq, Structural, Debug)]
pub struct Hitbox {
    pub top_x: i32,
    pub top_y: i32,
    pub width: i32,
    pub height: i32,
}

impl Hitbox {
    /// Nonnegative extent, and coordinates small enough that every edge sum
    /// fits an `i32`.
    pub open spec fn wf(self) -> bool {
        &&& -MAX_COORD <= self.top_x <= MAX_COORD
        &&& -MAX_COORD <= self.top_y <= MAX_COORD
        &&& 0 <= self.width <= MAX_EXTENT
        &&& 0 <= self.height <= MAX_EXTENT
    }

    pub open spec fn spec_top(self) -> int {
        self.top_y as int
    }

    pub open spec fn spec_bottom(self) -> int {
        self.top_y + self.height
    }

    pub open spec fn spec_left(self) -> int {
        self.top_x as int
    }

    pub open spec fn spec_right(self) -> int {
        self.top_x + self.width
    }

    /// The game's overlap test, in its early-exit form: not colliding when
    /// `other` ends above `self`'s top edge or left of `self`'s left edge;
    /// otherwise colliding exactly when `other` starts above `self`'s bottom
    /// edge and left of `self`'s right edge. The first two comparisons are
    /// non-strict and the last two strict, so the test is not symmetric in
    /// its operands at exact edge-to-edge contact.
    pub open spec fn spec_collides(self, other: Hitbox) -> bool {
        &&& !(other.spec_bottom() < self.spec_top())
        &&& !(other.spec_right() < self.spec_left())
        &&& other.spec_top() < self.spec_bottom()
        &&& other.spec_left() < self.spec_right()
    }

    pub fn new(top_x: i32, top_y: i32, width: i32, height: i32) -> (r: Hitbox)
        ensures
            r == (Hitbox { top_x, top_y, width, height }),
    {
        Hitbox { top_x, top_y, width, height }
    }

    fn get_top(&self) -> (r: i32)
        ensures
            r == self.spec_top(),
    {
        self.top_y
    }

    fn get_bottom(&self) -> (r: i32)
        requires
            self.wf(),
        ensures
            r == self.spec_bottom(),
    {
        self.top_y + self.height
    }

    fn get_left(&self) -> (r: i32)
        ensures
            r == self.spec_left(),
    {
        self.top_x
    }

    fn get_right(&self) -> (r: i32)
        requires
            self.wf(),
        ensures
            r == self.spec_right(),
    {
        self.top_x + self.width
    }

    /// Whether the two boxes overlap, by the early-exit test of
    /// [`Hitbox::spec_collides`].
    pub fn check_collision(&self, other: &Hitbox) -> (r: bool)
        requires
            self.wf(),
            other.wf(),
        ensures
            r == self.spec_collides(*other),
    {
        if other.get_bottom() < self.get_top() {
            return false;
        }
        if other.get_right() < self.get_left() {
            return false;
        }
        other.get_top() < self.get_bottom() && other.get_left() < self.get_right()
    }
}

/// For two boxes of equal size the overlap test does not depend on the order
/// of its operands, as long as the boxes do not stand in exact edge-to-edge
/// contact on either axis; at exact contact the non-strict early exits make
/// the test order-dependent.
pub proof fn lemma_collision_symmetric_for_equal_sizes(a: Hitbox, b: Hitbox)
    requires
        a.wf(),
        b.wf(),
        a.width == b.width,
        a.height == b.height,
        a.top_y - b.top_y != b.height,
        b.top_y - a.top_y != a.height,
        a.top_x - b.top_x != b.width,
        b.top_x - a.top_x != a.width,
    ensures
        a.spec_collides(b) == b.spec_collides(a),
{
}

} // verus!
