//! Thrown tiles in flight. A projectile integrates its position each frame,
//! dies when it hits the opposing player, spawns one hit effect on the frame
//! it died, and despawns once dead or once it leaves the extended playfield.

use vstd::prelude::*;
use crate::FACTOR_ONE;
use crate::MAX_COORD;
use crate::MAX_FACTOR;
use crate::MAX_POS;
use crate::MAX_SPEED;
use crate::anim::Anim;
use crate::anim::AnimVariant;
use crate::hitbox::Hitbox;
use crate::scale_by_factor;
use crate::spec_scale;

verus! {

/// Side of a tile sprite in sub-units: the extent of a projectile's hitbox.
pub const TILE_EXTENT: i32 = 32 * 10;

/// Frames of a hit effect.
pub const HIT_ANIM_FRAMES: u32 = 3;

/// Ticks each hit-effect frame is held.
pub const HIT_ANIM_WAIT: u32 = 4;

#[derive(Clone, Copy, PartialEq, Eq, Structural, Debug)]
pub struct Projectile {
    pub owner: u32,
    pub pos_x: i32,
    pub pos_y: i32,
    pub vel_x: i32,
    pub vel_y: i32,
    pub hitbox: Hitbox,
    pub sprite_id: usize,
    pub is_dead: bool,
}

impl Projectile {
    /// The tile-sized hitbox anchored at the projectile's position.
    pub open spec fn tracked_hitbox(self) -> Hitbox {
        Hitbox { top_x: self.pos_x, top_y: self.pos_y, width: TILE_EXTENT, height: TILE_EXTENT }
    }

    /// Velocity within the speed bound and the hitbox tracking the position.
    pub open spec fn wf(self) -> bool {
        &&& -MAX_SPEED <= self.vel_x <= MAX_SPEED
        &&& -MAX_SPEED <= self.vel_y <= MAX_SPEED
        &&& self.hitbox == self.tracked_hitbox()
    }

    /// Position close enough to the playfield that one frame of travel at the
    /// extreme speed and factor cannot overflow.
    pub open spec fn pos_bounded(self) -> bool {
        &&& -MAX_POS <= self.pos_x <= MAX_POS
        &&& -MAX_POS <= self.pos_y <= MAX_POS
    }

    /// The projectile after one frame of travel: position integrated by the
    /// frame-time factor, hitbox retracked, everything else kept.
    pub open spec fn spec_moved(self, factor: int) -> Projectile {
        let moved = Projectile {
            pos_x: (self.pos_x + spec_scale(self.vel_x as int, factor)) as i32,
            pos_y: (self.pos_y + spec_scale(self.vel_y as int, factor)) as i32,
            ..self
        };
        Projectile { hitbox: moved.tracked_hitbox(), ..moved }
    }

    /// The hit effect a projectile leaves when it dies: centred on the
    /// projectile by half a tile, palette keyed by the owner.
    pub open spec fn spec_hit_anim(self) -> Anim {
        Anim {
            pos_x: (self.pos_x - TILE_EXTENT / 2) as i32,
            pos_y: (self.pos_y - TILE_EXTENT / 2) as i32,
            frame: 1,
            end: HIT_ANIM_FRAMES,
            wait: HIT_ANIM_WAIT,
            is_dead: false,
            variant: if self.owner == 1 {
                AnimVariant::RED
            } else {
                AnimVariant::GREEN
            },
        }
    }

    /// Whether the owning collection should drop this projectile: explicitly
    /// killed, or out of the extended playfield, which reaches one tile
    /// beyond the origin on each axis and up to the given bounds.
    pub open spec fn spec_despawned(self, bound_x: int, bound_y: int) -> bool {
        ||| self.pos_x < -TILE_EXTENT
        ||| self.pos_y < -TILE_EXTENT
        ||| self.pos_x > bound_x
        ||| self.pos_y > bound_y
        ||| self.is_dead
    }

    pub fn new(
        owner_id: u32,
        pos_x: i32,
        pos_y: i32,
        vel_x: i32,
        vel_y: i32,
        sprite_id: usize,
    ) -> (r: Projectile)
        ensures
            r == (Projectile {
                owner: owner_id,
                pos_x,
                pos_y,
                vel_x,
                vel_y,
                hitbox: (Hitbox {
                    top_x: pos_x,
                    top_y: pos_y,
                    width: TILE_EXTENT,
                    height: TILE_EXTENT,
                }),
                sprite_id,
                is_dead: false,
            }),
    {
        Projectile {
            owner: owner_id,
            pos_x,
            pos_y,
            vel_x,
            vel_y,
            hitbox: Hitbox::new(pos_x, pos_y, TILE_EXTENT, TILE_EXTENT),
            sprite_id,
            is_dead: false,
        }
    }

    /// One frame: integrate the position by the frame-time factor, retrack
    /// the hitbox, and if the projectile is dead append its hit effect to the
    /// animation collection.
    pub fn update(&mut self, factor: u32, anims: &mut Vec<Anim>)
        requires
            old(self).wf(),
            old(self).pos_bounded(),
            factor <= MAX_FACTOR,
        ensures
            *final(self) == old(self).spec_moved(factor as int),
            final(self).wf(),
            final(self).is_dead ==> final(anims)@ == old(anims)@.push(final(self).spec_hit_anim()),
            !final(self).is_dead ==> final(anims)@ == old(anims)@,
    {
        self.pos_x = self.pos_x + scale_by_factor(self.vel_x, factor);
        self.pos_y = self.pos_y + scale_by_factor(self.vel_y, factor);
        self.hitbox.top_x = self.pos_x;
        self.hitbox.top_y = self.pos_y;
        if self.is_dead {
            let variant = if self.owner == 1 {
                AnimVariant::RED
            } else {
                AnimVariant::GREEN
            };
            anims.push(
                Anim::new(
                    self.pos_x - TILE_EXTENT / 2,
                    self.pos_y - TILE_EXTENT / 2,
                    variant,
                    HIT_ANIM_FRAMES,
                    HIT_ANIM_WAIT,
                ),
            );
        }
    }

    /// Whether this projectile is done: killed, or out of the extended
    /// playfield bounds handed in by the orchestrator.
    pub fn is_dead(&self, bound_x: i32, bound_y: i32) -> (r: bool)
        ensures
            r == self.spec_despawned(bound_x as int, bound_y as int),
    {
        if self.pos_x < -TILE_EXTENT || self.pos_y < -TILE_EXTENT || self.pos_x > bound_x
            || self.pos_y > bound_y {
            return true;
        }
        self.is_dead
    }

    pub fn kill(&mut self)
        ensures
            *final(self) == (Projectile { is_dead: true, ..*old(self) }),
    {
        self.is_dead = true;
    }

    pub fn get_hitbox(&self) -> (r: &Hitbox)
        ensures
            *r == self.hitbox,
    {
        &self.hitbox
    }

    pub fn get_owner(&self) -> (r: u32)
        ensures
            r == self.owner,
    {
        self.owner
    }
}

/// A projectile with zero velocity never moves, so one that sits inside the
/// extended playfield never comes to despawn by position: after any frame,
/// at any frame-time factor, it despawns only if it was explicitly killed.
pub proof fn lemma_zero_velocity_never_despawns_by_position(
    q: Projectile,
    factor: int,
    bound_x: int,
    bound_y: int,
)
    requires
        q.vel_x == 0,
        q.vel_y == 0,
        -TILE_EXTENT <= q.pos_x <= bound_x,
        -TILE_EXTENT <= q.pos_y <= bound_y,
    ensures
        q.spec_moved(factor).pos_x == q.pos_x,
        q.spec_moved(factor).pos_y == q.pos_y,
        q.spec_moved(factor).spec_despawned(bound_x, bound_y) == q.is_dead,
{
    assert(spec_scale(0, factor) == 0) by {
        vstd::arithmetic::div_mod::lemma_div_of0(FACTOR_ONE as int);
    }
}

} // verus!
