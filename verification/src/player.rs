//! Players: position and velocity, facing, an optional carried tile, and the
//! per-frame rules that move them, kill them over missing floor, and let them
//! pick up and throw tiles.

use vstd::prelude::*;
use crate::MAX_FACTOR;
use crate::MAX_POS;
use crate::MAX_SPEED;
use crate::SUBUNITS;
use crate::hitbox::Hitbox;
use crate::projectile::Projectile;
use crate::scale_by_factor;
use crate::spec_scale;
use crate::tile::Tile;
use crate::tile::TileMap;
use crate::tile::TileState;
use crate::tile::TILE_SPACE_SUB;

verus! {

/// Extra speed a throw adds along the facing axis, in sub-units per frame.
pub const THROW_SPEED: i32 = 10;

/// A player sprite's square footprint, in sub-units.
pub const PLAYER_SIZE: u32 = 32 * 10;

/// Bound on the magnitude of a player velocity component, in sub-units per
/// frame, with room left for the throw speed under `crate::MAX_SPEED`.
pub const MAX_PLAYER_SPEED: i32 = 99_000;

#[derive(Clone, Copy, PartialEq, Eq, Structural, Debug)]
pub enum Direction {
    UP,
    DOWN,
    LEFT,
    RIGHT,
}

/// A velocity component under the diagonal adjustment: scaled by seven
/// tenths, truncated toward zero.
pub open spec fn spec_diagonal(v: int) -> int {
    if v >= 0 {
        (7 * v) / 10
    } else {
        -((7 * (-v)) / 10)
    }
}

/// The grid index a position maps to, clamped into `[0, limit)`: positions
/// at or left of the origin map to the border column 0, positions past the
/// far edge to the border column `limit - 1`.
pub open spec fn spec_grid_index(pos: int, limit: int) -> int {
    if pos <= 0 {
        0
    } else if pos / (TILE_SPACE_SUB as int) >= limit {
        limit - 1
    } else {
        pos / (TILE_SPACE_SUB as int)
    }
}

/// The clamped grid index of a position, as the footing and pickup rules
/// compute it.
pub fn grid_index_of(pos: i32, limit: usize) -> (r: usize)
    requires
        1 <= limit,
    ensures
        r == spec_grid_index(pos as int, limit as int),
        r < limit,
{
    if pos <= 0 {
        return 0;
    }
    let i = ((pos as u32) / (TILE_SPACE_SUB as u32)) as usize;
    if i >= limit {
        limit - 1
    } else {
        i
    }
}

#[derive(Clone, Copy, Debug)]
pub struct Player {
    pub id: u32,
    pub pos_x: i32,
    pub pos_y: i32,
    pub width: u32,
    pub height: u32,
    pub vel_x: i32,
    pub vel_y: i32,
    pub dir: Direction,
    pub tile: Option<Tile>,
    pub tile_image_id: usize,
    pub hitbox: Hitbox,
    pub is_dead: bool,
}

impl Player {
    /// Fixed footprint, velocity within the player speed bound, hitbox
    /// coordinates in range.
    pub open spec fn wf(self) -> bool {
        &&& self.width == PLAYER_SIZE
        &&& self.height == PLAYER_SIZE
        &&& -MAX_PLAYER_SPEED <= self.vel_x <= MAX_PLAYER_SPEED
        &&& -MAX_PLAYER_SPEED <= self.vel_y <= MAX_PLAYER_SPEED
        &&& self.hitbox.wf()
    }

    /// Position close enough to the playfield that one frame of travel at
    /// the extreme speed and factor cannot overflow.
    pub open spec fn pos_bounded(self) -> bool {
        &&& -MAX_POS <= self.pos_x <= MAX_POS
        &&& -MAX_POS <= self.pos_y <= MAX_POS
    }

    /// The horizontal velocity actually integrated this frame: adjusted by
    /// seven tenths when the player moves on both axes at once.
    pub open spec fn spec_adj_vel_x(self) -> int {
        if self.vel_x != 0 && self.vel_y != 0 {
            spec_diagonal(self.vel_x as int)
        } else {
            self.vel_x as int
        }
    }

    /// The vertical counterpart of [`Player::spec_adj_vel_x`].
    pub open spec fn spec_adj_vel_y(self) -> int {
        if self.vel_x != 0 && self.vel_y != 0 {
            spec_diagonal(self.vel_y as int)
        } else {
            self.vel_y as int
        }
    }

    /// Horizontal offset from the player position to the cell one tile-step
    /// ahead in the facing direction, where a carried tile is shown and a
    /// throw spawns.
    pub open spec fn spec_tile_offset_x(self) -> int {
        match self.dir {
            Direction::LEFT => -480,
            Direction::RIGHT => 160,
            _ => -160,
        }
    }

    /// The vertical counterpart of [`Player::spec_tile_offset_x`].
    pub open spec fn spec_tile_offset_y(self) -> int {
        match self.dir {
            Direction::UP => -480,
            Direction::DOWN => 160,
            _ => -160,
        }
    }

    /// The extra throw velocity along the facing axis.
    pub open spec fn spec_throw_vel_x(self) -> int {
        match self.dir {
            Direction::LEFT => -THROW_SPEED as int,
            Direction::RIGHT => THROW_SPEED as int,
            _ => 0,
        }
    }

    /// The vertical counterpart of [`Player::spec_throw_vel_x`].
    pub open spec fn spec_throw_vel_y(self) -> int {
        match self.dir {
            Direction::UP => -THROW_SPEED as int,
            Direction::DOWN => THROW_SPEED as int,
            _ => 0,
        }
    }

    /// The player after one frame of travel: position integrated by the
    /// frame-time factor from the adjusted velocity, hitbox recentred under
    /// the sprite, everything else kept.
    pub open spec fn spec_after_move(self, factor: int) -> Player {
        let m = Player {
            pos_x: (self.pos_x + spec_scale(self.spec_adj_vel_x(), factor)) as i32,
            pos_y: (self.pos_y + spec_scale(self.spec_adj_vel_y(), factor)) as i32,
            ..self
        };
        Player {
            hitbox: Hitbox {
                top_x: (m.pos_x - self.width as int / 2) as i32,
                top_y: (m.pos_y - self.height as int / 2) as i32,
                ..self.hitbox
            },
            ..m
        }
    }

    /// Whether the cell under the player's position is missing floor.
    pub open spec fn spec_footing_empty(self, m: TileMap) -> bool {
        m.spec_state(
            spec_grid_index(self.pos_x as int, m.num_tiles_x as int),
            spec_grid_index(self.pos_y as int, m.num_tiles_y as int),
        ) == TileState::EMPTY
    }

    /// Whether a projectile hits this player: thrown by the other player,
    /// still live, and overlapping the player's hitbox.
    pub open spec fn spec_hits(self, q: Projectile) -> bool {
        &&& self.id != q.owner
        &&& !q.is_dead
        &&& self.hitbox.spec_collides(q.hitbox)
    }

    /// A fresh player at a spawn position given in pixels, facing the given
    /// way, carrying nothing, alive and still.
    pub fn new(id: u32, pos_x: u32, pos_y: u32, init_dir: Direction) -> (r: Player)
        requires
            pos_x * SUBUNITS <= MAX_POS,
            pos_y * SUBUNITS <= MAX_POS,
        ensures
            r == (Player {
                id,
                pos_x: (pos_x * SUBUNITS) as i32,
                pos_y: (pos_y * SUBUNITS) as i32,
                width: PLAYER_SIZE,
                height: PLAYER_SIZE,
                vel_x: 0,
                vel_y: 0,
                dir: init_dir,
                tile: None,
                tile_image_id: 1,
                hitbox: (Hitbox {
                    top_x: (pos_x * SUBUNITS) as i32,
                    top_y: (pos_y * SUBUNITS) as i32,
                    width: PLAYER_SIZE as i32,
                    height: PLAYER_SIZE as i32,
                }),
                is_dead: false,
            }),
            r.wf(),
            r.pos_bounded(),
    {
        let x = (pos_x * (SUBUNITS as u32)) as i32;
        let y = (pos_y * (SUBUNITS as u32)) as i32;
        Player {
            id,
            pos_x: x,
            pos_y: y,
            width: PLAYER_SIZE,
            height: PLAYER_SIZE,
            vel_x: 0,
            vel_y: 0,
            dir: init_dir,
            tile: None,
            tile_image_id: 1,
            hitbox: Hitbox::new(x, y, PLAYER_SIZE as i32, PLAYER_SIZE as i32),
            is_dead: false,
        }
    }

    pub fn get_id(&self) -> (r: u32)
        ensures
            r == self.id,
    {
        self.id
    }

    pub fn is_dead(&self) -> (r: bool)
        ensures
            r == self.is_dead,
    {
        self.is_dead
    }

    /// The centre of the player's footprint, half a sprite right of and
    /// below the position.
    pub fn get_center(&self) -> (r: (i32, i32))
        requires
            self.wf(),
            self.pos_bounded(),
        ensures
            r.0 == self.pos_x + self.width as int / 2,
            r.1 == self.pos_y + self.height as int / 2,
    {
        (self.pos_x + (self.width / 2) as i32, self.pos_y + (self.height / 2) as i32)
    }

    /// Sets the horizontal velocity; a nonzero value also turns the player
    /// left or right, zero keeps the current facing.
    pub fn set_vel_x(&mut self, vel_x: i32)
        requires
            -MAX_PLAYER_SPEED <= vel_x <= MAX_PLAYER_SPEED,
        ensures
            *final(self) == (Player {
                vel_x,
                dir: if vel_x > 0 {
                    Direction::RIGHT
                } else if vel_x < 0 {
                    Direction::LEFT
                } else {
                    old(self).dir
                },
                ..*old(self)
            }),
    {
        self.vel_x = vel_x;
        if self.vel_x > 0 {
            self.dir = Direction::RIGHT;
        } else if self.vel_x < 0 {
            self.dir = Direction::LEFT;
        }
    }

    /// Sets the vertical velocity; a nonzero value also turns the player up
    /// or down, zero keeps the current facing.
    pub fn set_vel_y(&mut self, vel_y: i32)
        requires
            -MAX_PLAYER_SPEED <= vel_y <= MAX_PLAYER_SPEED,
        ensures
            *final(self) == (Player {
                vel_y,
                dir: if vel_y > 0 {
                    Direction::DOWN
                } else if vel_y < 0 {
                    Direction::UP
                } else {
                    old(self).dir
                },
                ..*old(self)
            }),
    {
        self.vel_y = vel_y;
        if self.vel_y > 0 {
            self.dir = Direction::DOWN;
        } else if self.vel_y < 0 {
            self.dir = Direction::UP;
        }
    }

    /// The player after a direction key is released: that axis's velocity
    /// is zeroed only while it still points the released way, so a late
    /// key-up never clobbers a newer opposite key-press.
    pub open spec fn spec_dir_released(self, dir: Direction) -> Player {
        match dir {
            Direction::UP => Player {
                vel_y: if self.vel_y < 0 {
                    0
                } else {
                    self.vel_y
                },
                ..self
            },
            Direction::DOWN => Player {
                vel_y: if self.vel_y > 0 {
                    0
                } else {
                    self.vel_y
                },
                ..self
            },
            Direction::LEFT => Player {
                vel_x: if self.vel_x < 0 {
                    0
                } else {
                    self.vel_x
                },
                ..self
            },
            Direction::RIGHT => Player {
                vel_x: if self.vel_x > 0 {
                    0
                } else {
                    self.vel_x
                },
                ..self
            },
        }
    }

    /// Applies [`Player::spec_dir_released`] for the released key.
    pub fn on_dir_released(&mut self, dir: Direction)
        ensures
            *final(self) == old(self).spec_dir_released(dir),
    {
        match dir {
            Direction::UP => {
                if self.vel_y < 0 {
                    self.vel_y = 0;
                }
            },
            Direction::DOWN => {
                if self.vel_y > 0 {
                    self.vel_y = 0;
                }
            },
            Direction::LEFT => {
                if self.vel_x < 0 {
                    self.vel_x = 0;
                }
            },
            Direction::RIGHT => {
                if self.vel_x > 0 {
                    self.vel_x = 0;
                }
            },
        }
    }

    /// The facing expressed in degrees of sprite rotation: down is 0 and the
    /// angle grows counter-clockwise.
    pub fn get_facing_degrees(&self) -> (r: u32)
        ensures
            self.dir == Direction::UP ==> r == 180,
            self.dir == Direction::DOWN ==> r == 0,
            self.dir == Direction::LEFT ==> r == 90,
            self.dir == Direction::RIGHT ==> r == 270,
    {
        match self.dir {
            Direction::UP => 180,
            Direction::DOWN => 0,
            Direction::LEFT => 90,
            Direction::RIGHT => 270,
        }
    }

    /// See [`Player::spec_tile_offset_x`].
    pub fn get_tile_offset_x(&self) -> (r: i32)
        ensures
            r == self.spec_tile_offset_x(),
    {
        match self.dir {
            Direction::LEFT => -480,
            Direction::RIGHT => 160,
            _ => -160,
        }
    }

    /// See [`Player::spec_tile_offset_y`].
    pub fn get_tile_offset_y(&self) -> (r: i32)
        ensures
            r == self.spec_tile_offset_y(),
    {
        match self.dir {
            Direction::UP => -480,
            Direction::DOWN => 160,
            _ => -160,
        }
    }

    fn get_throw_vel_x(&self) -> (r: i32)
        ensures
            r == self.spec_throw_vel_x(),
    {
        match self.dir {
            Direction::LEFT => -THROW_SPEED,
            Direction::RIGHT => THROW_SPEED,
            _ => 0,
        }
    }

    fn get_throw_vel_y(&self) -> (r: i32)
        ensures
            r == self.spec_throw_vel_y(),
    {
        match self.dir {
            Direction::UP => -THROW_SPEED,
            Direction::DOWN => THROW_SPEED,
            _ => 0,
        }
    }

    /// The tile the player would try to pick up: the column one clamped
    /// tile-step from the player's own cell in the facing direction.
    pub open spec fn spec_pickup_x(self, m: TileMap) -> int {
        let ix = spec_grid_index(self.pos_x as int, m.num_tiles_x as int);
        match self.dir {
            Direction::LEFT => if ix == 0 {
                0
            } else {
                ix - 1
            },
            Direction::RIGHT => if ix + 1 >= m.num_tiles_x {
                m.num_tiles_x - 1
            } else {
                ix + 1
            },
            _ => ix,
        }
    }

    /// The row counterpart of [`Player::spec_pickup_x`].
    pub open spec fn spec_pickup_y(self, m: TileMap) -> int {
        let iy = spec_grid_index(self.pos_y as int, m.num_tiles_y as int);
        match self.dir {
            Direction::UP => if iy == 0 {
                0
            } else {
                iy - 1
            },
            Direction::DOWN => if iy + 1 >= m.num_tiles_y {
                m.num_tiles_y - 1
            } else {
                iy + 1
            },
            _ => iy,
        }
    }

    /// The projectile a throw spawns: owned by this player, placed one
    /// facing offset from the player, moving with the adjusted velocity plus
    /// the throw speed along the facing axis, decorated like the tile that
    /// was last picked up.
    pub open spec fn spec_thrown(self) -> Projectile {
        Projectile {
            owner: self.id,
            pos_x: (self.pos_x + self.spec_tile_offset_x()) as i32,
            pos_y: (self.pos_y + self.spec_tile_offset_y()) as i32,
            vel_x: (self.spec_adj_vel_x() + self.spec_throw_vel_x()) as i32,
            vel_y: (self.spec_adj_vel_y() + self.spec_throw_vel_y()) as i32,
            hitbox: Hitbox {
                top_x: (self.pos_x + self.spec_tile_offset_x()) as i32,
                top_y: (self.pos_y + self.spec_tile_offset_y()) as i32,
                width: crate::projectile::TILE_EXTENT,
                height: crate::projectile::TILE_EXTENT,
            },
            sprite_id: self.tile_image_id,
            is_dead: false,
        }
    }

    /// The velocity component integrated this frame on the horizontal axis.
    fn get_adj_vel_x(&self) -> (r: i32)
        requires
            self.wf(),
        ensures
            r == self.spec_adj_vel_x(),
            -MAX_PLAYER_SPEED <= r <= MAX_PLAYER_SPEED,
    {
        if self.vel_x != 0 && self.vel_y != 0 {
            diagonal(self.vel_x)
        } else {
            self.vel_x
        }
    }

    /// The velocity component integrated this frame on the vertical axis.
    fn get_adj_vel_y(&self) -> (r: i32)
        requires
            self.wf(),
        ensures
            r == self.spec_adj_vel_y(),
            -MAX_PLAYER_SPEED <= r <= MAX_PLAYER_SPEED,
    {
        if self.vel_x != 0 && self.vel_y != 0 {
            diagonal(self.vel_y)
        } else {
            self.vel_y
        }
    }

    /// Integrates the position by the adjusted velocity times the frame-time
    /// factor.
    fn change_pos_from_vel(&mut self, factor: u32)
        requires
            old(self).wf(),
            old(self).pos_bounded(),
            factor <= MAX_FACTOR,
        ensures
            *final(self) == (Player {
                pos_x: (old(self).pos_x + spec_scale(
                    old(self).spec_adj_vel_x(),
                    factor as int,
                )) as i32,
                pos_y: (old(self).pos_y + spec_scale(
                    old(self).spec_adj_vel_y(),
                    factor as int,
                )) as i32,
                ..*old(self)
            }),
            -990_000_000 <= final(self).pos_x <= 990_000_000,
            -990_000_000 <= final(self).pos_y <= 990_000_000,
    {
        let dx = scale_by_factor(self.get_adj_vel_x(), factor);
        let dy = scale_by_factor(self.get_adj_vel_y(), factor);
        self.pos_x = self.pos_x + dx;
        self.pos_y = self.pos_y + dy;
    }

    /// One frame of a player, skipped entirely when dead: integrate the
    /// position, recentre the hitbox under the sprite, die over missing
    /// floor, then die to any live opposing projectile that overlaps,
    /// killing every such projectile.
    #[verifier::loop_isolation(false)]
    pub fn update(&mut self, projectiles: &mut Vec<Projectile>, tile_map: &TileMap, factor: u32)
        requires
            old(self).wf(),
            !old(self).is_dead ==> old(self).pos_bounded(),
            factor <= MAX_FACTOR,
            tile_map.wf(),
            1 <= tile_map.num_tiles_x,
            1 <= tile_map.num_tiles_y,
            forall|j: int|
                0 <= j < old(projectiles)@.len() ==> (#[trigger] old(projectiles)@[j]).wf() && old(
                    projectiles,
                )@[j].pos_bounded(),
        ensures
            final(self).wf(),
            old(self).is_dead ==> *final(self) == *old(self) && final(projectiles)@ == old(
                projectiles,
            )@,
            !old(self).is_dead ==> ({
                let moved = old(self).spec_after_move(factor as int);
                &&& *final(self) == (Player {
                    is_dead: moved.spec_footing_empty(*tile_map) || (exists|j: int|
                        0 <= j < old(projectiles)@.len() && moved.spec_hits(
                            #[trigger] old(projectiles)@[j],
                        )),
                    ..moved
                })
                &&& final(projectiles)@.len() == old(projectiles)@.len()
                &&& forall|j: int|
                    0 <= j < old(projectiles)@.len() ==> final(projectiles)@[j] == (
                    if moved.spec_hits(#[trigger] old(projectiles)@[j]) {
                        (Projectile { is_dead: true, ..old(projectiles)@[j] })
                    } else {
                        old(projectiles)@[j]
                    })
            }),
            !final(self).is_dead && !old(self).is_dead && tile_map.border_empty() && 2
                <= tile_map.num_tiles_x && 2 <= tile_map.num_tiles_y ==> ({
                &&& TILE_SPACE_SUB <= final(self).pos_x < (tile_map.num_tiles_x - 1) * (
                TILE_SPACE_SUB as int)
                &&& TILE_SPACE_SUB <= final(self).pos_y < (tile_map.num_tiles_y - 1) * (
                TILE_SPACE_SUB as int)
            }),
    {
        if self.is_dead {
            return ;
        }
        self.change_pos_from_vel(factor);
        self.hitbox.top_x = self.pos_x - ((self.width / 2) as i32);
        self.hitbox.top_y = self.pos_y - ((self.height / 2) as i32);
        let ghost moved = old(self).spec_after_move(factor as int);
        proof {
            assert(*self == moved);
            assert(moved.hitbox.wf());
        }

        let tile_index_x = grid_index_of(self.pos_x, tile_map.num_tiles_x);
        let tile_index_y = grid_index_of(self.pos_y, tile_map.num_tiles_y);
        match tile_map.get_state(tile_index_x, tile_index_y) {
            TileState::EMPTY => {
                self.is_dead = true;
            },
            _ => {},
        }
        let ghost foot = moved.spec_footing_empty(*tile_map);

        let mut i: usize = 0;
        while i < projectiles.len()
            invariant
                i <= projectiles@.len(),
                projectiles@.len() == old(projectiles)@.len(),
                forall|j: int|
                    i <= j < projectiles@.len() ==> projectiles@[j] == old(projectiles)@[j],
                forall|j: int|
                    0 <= j < i ==> projectiles@[j] == (if moved.spec_hits(
                        #[trigger] old(projectiles)@[j],
                    ) {
                        (Projectile { is_dead: true, ..old(projectiles)@[j] })
                    } else {
                        old(projectiles)@[j]
                    }),
                *self == (Player {
                    is_dead: foot || (exists|j: int|
                        0 <= j < i && moved.spec_hits(#[trigger] old(projectiles)@[j])),
                    ..moved
                }),
            decreases projectiles@.len() - i,
        {
            let owner = projectiles[i].get_owner();
            let already_dead = projectiles[i].is_dead;
            if self.id != owner && !already_dead {
                let hit = self.hitbox.check_collision(projectiles[i].get_hitbox());
                if hit {
                    projectiles[i].kill();
                    self.is_dead = true;
                    proof {
                        assert(moved.spec_hits(old(projectiles)@[i as int]));
                    }
                }
            }
            i = i + 1;
        }

        proof {
            if !self.is_dead && tile_map.border_empty() && 2 <= tile_map.num_tiles_x && 2
                <= tile_map.num_tiles_y {
                let pitch = TILE_SPACE_SUB as int;
                let ix = spec_grid_index(moved.pos_x as int, tile_map.num_tiles_x as int);
                let iy = spec_grid_index(moved.pos_y as int, tile_map.num_tiles_y as int);
                assert(tile_map.spec_state(ix, iy) != TileState::EMPTY);
                assert(!tile_map.on_border(ix, iy));
                assert(moved.pos_x > 0 && moved.pos_y > 0);
                vstd::arithmetic::div_mod::lemma_fundamental_div_mod(moved.pos_x as int, pitch);
                vstd::arithmetic::div_mod::lemma_mod_bound(moved.pos_x as int, pitch);
                vstd::arithmetic::div_mod::lemma_fundamental_div_mod(moved.pos_y as int, pitch);
                vstd::arithmetic::div_mod::lemma_mod_bound(moved.pos_y as int, pitch);
                assert(1 <= moved.pos_x as int / pitch <= tile_map.num_tiles_x - 2);
                assert(1 <= moved.pos_y as int / pitch <= tile_map.num_tiles_y - 2);
            }
        }
    }

    /// The action button: dead players do nothing; an empty-handed player
    /// tries to pick up the tile one step ahead, a carrying player throws.
    pub fn on_action(&mut self, tile_map: &mut TileMap, projectiles: &mut Vec<Projectile>)
        requires
            old(self).wf(),
            !old(self).is_dead ==> old(self).pos_bounded(),
            old(tile_map).wf(),
            1 <= old(tile_map).num_tiles_x,
            1 <= old(tile_map).num_tiles_y,
        ensures
            old(self).is_dead ==> *final(self) == *old(self) && *final(tile_map) == *old(tile_map)
                && final(projectiles)@ == old(projectiles)@,
            !old(self).is_dead && old(self).tile.is_none() ==> spec_pickup_post(
                *old(self),
                *old(tile_map),
                *final(self),
                *final(tile_map),
            ) && final(projectiles)@ == old(projectiles)@,
            !old(self).is_dead && old(self).tile.is_some() ==> *final(self) == (Player {
                tile: None,
                ..*old(self)
            }) && *final(tile_map) == *old(tile_map) && final(projectiles)@ == old(
                projectiles,
            )@.push(old(self).spec_thrown()),
            !old(self).is_dead && old(self).tile.is_some() ==> old(self).spec_thrown().wf(),
    {
        if self.is_dead {
            return ;
        }
        if self.tile.is_none() {
            self.pickup_tile(tile_map);
        } else {
            self.throw_tile(projectiles);
        }
    }

    /// Clears the carried tile and spawns the projectile described by
    /// [`Player::spec_thrown`].
    fn throw_tile(&mut self, projectiles: &mut Vec<Projectile>)
        requires
            old(self).wf(),
            old(self).pos_bounded(),
        ensures
            *final(self) == (Player { tile: None, ..*old(self) }),
            final(projectiles)@ == old(projectiles)@.push(old(self).spec_thrown()),
            old(self).spec_thrown().wf(),
    {
        self.tile = None;
        let px = self.pos_x + self.get_tile_offset_x();
        let py = self.pos_y + self.get_tile_offset_y();
        let vx = self.get_adj_vel_x() + self.get_throw_vel_x();
        let vy = self.get_adj_vel_y() + self.get_throw_vel_y();
        projectiles.push(Projectile::new(self.id, px, py, vx, vy, self.tile_image_id));
    }

    /// Attempts to pick up the tile one clamped step ahead of the player:
    /// if the player carries nothing and that cell is solid, the cell goes
    /// missing and the player carries its decoration from then on.
    pub fn pickup_tile(&mut self, tile_map: &mut TileMap)
        requires
            old(tile_map).wf(),
            1 <= old(tile_map).num_tiles_x,
            1 <= old(tile_map).num_tiles_y,
        ensures
            old(self).tile.is_some() ==> *final(self) == *old(self) && *final(tile_map) == *old(
                tile_map,
            ),
            old(self).tile.is_none() ==> spec_pickup_post(
                *old(self),
                *old(tile_map),
                *final(self),
                *final(tile_map),
            ),
    {
        if self.tile.is_some() {
            return ;
        }
        let mut tile_index_x = grid_index_of(self.pos_x, tile_map.num_tiles_x);
        let mut tile_index_y = grid_index_of(self.pos_y, tile_map.num_tiles_y);
        match self.dir {
            Direction::UP => {
                if tile_index_y > 0 {
                    tile_index_y = tile_index_y - 1;
                }
            },
            Direction::DOWN => {
                if tile_index_y + 1 >= tile_map.num_tiles_y {
                    tile_index_y = tile_map.num_tiles_y - 1;
                } else {
                    tile_index_y = tile_index_y + 1;
                }
            },
            Direction::LEFT => {
                if tile_index_x > 0 {
                    tile_index_x = tile_index_x - 1;
                }
            },
            Direction::RIGHT => {
                if tile_index_x + 1 >= tile_map.num_tiles_x {
                    tile_index_x = tile_map.num_tiles_x - 1;
                } else {
                    tile_index_x = tile_index_x + 1;
                }
            },
        }
        let state = tile_map.get_state(tile_index_x, tile_index_y);
        if state == TileState::FULL {
            let picked_id = tile_map.map[tile_index_y][tile_index_x].image_id;
            tile_map.set_state(tile_index_x, tile_index_y, TileState::EMPTY);
            self.tile_image_id = picked_id;
            self.tile = Some(Tile::new(0, 0, picked_id));
        }
    }
}

/// What a pickup attempt by an empty-handed player leaves behind: if the
/// targeted cell was solid it is now missing (and only it changed, so a
/// missing border stays missing) and the player carries its decoration;
/// otherwise nothing changed at all.
pub open spec fn spec_pickup_post(pre: Player, mpre: TileMap, post: Player, mpost: TileMap) -> bool {
    let tx = pre.spec_pickup_x(mpre);
    let ty = pre.spec_pickup_y(mpre);
    if mpre.spec_state(tx, ty) == TileState::FULL {
        &&& mpost.wf()
        &&& mpost.num_tiles_x == mpre.num_tiles_x
        &&& mpost.num_tiles_y == mpre.num_tiles_y
        &&& mpost.spec_cell(tx, ty) == (Tile { state: TileState::EMPTY, ..mpre.spec_cell(tx, ty) })
        &&& forall|i: int, j: int|
            mpre.in_bounds(i, j) && !(i == tx && j == ty) ==> (#[trigger] mpost.spec_cell(i, j))
                == mpre.spec_cell(i, j)
        &&& (mpre.border_empty() ==> mpost.border_empty())
        &&& post == (Player {
            tile: Some(
                Tile {
                    pos_x: 0,
                    pos_y: 0,
                    state: TileState::FULL,
                    image_id: mpre.spec_cell(tx, ty).image_id,
                },
            ),
            tile_image_id: mpre.spec_cell(tx, ty).image_id,
            ..pre
        })
    } else {
        &&& mpost == mpre
        &&& post == pre
    }
}

/// Picking up empties a solid cell exactly once: after a successful pickup
/// the targeted cell is missing and the player carries its decoration, and a
/// second attempt aimed at the same, now missing, cell changes neither the
/// grid nor the attempting player.
pub proof fn lemma_pickup_exactly_once(
    p: Player,
    m: TileMap,
    p1: Player,
    m1: TileMap,
    p2: Player,
    m2: TileMap,
)
    requires
        p.tile.is_none(),
        m.spec_state(p.spec_pickup_x(m), p.spec_pickup_y(m)) == TileState::FULL,
        spec_pickup_post(p, m, p1, m1),
        spec_pickup_post(Player { tile: None, ..p1 }, m1, p2, m2),
    ensures
        m1.spec_state(p.spec_pickup_x(m), p.spec_pickup_y(m)) == TileState::EMPTY,
        p1.tile == Some(
            Tile {
                pos_x: 0,
                pos_y: 0,
                state: TileState::FULL,
                image_id: m.spec_cell(p.spec_pickup_x(m), p.spec_pickup_y(m)).image_id,
            },
        ),
        m2 == m1,
        p2 == (Player { tile: None, ..p1 }),
{
    let retry = Player { tile: None, ..p1 };
    assert(retry.spec_pickup_x(m1) == p.spec_pickup_x(m));
    assert(retry.spec_pickup_y(m1) == p.spec_pickup_y(m));
}

/// Seven tenths of a velocity component, truncated toward zero; its
/// magnitude never grows.
fn diagonal(v: i32) -> (r: i32)
    requires
        -MAX_PLAYER_SPEED <= v <= MAX_PLAYER_SPEED,
    ensures
        r == spec_diagonal(v as int),
        v >= 0 ==> 0 <= r <= v,
        v < 0 ==> v <= r <= 0,
{
    if v >= 0 {
        let wide: u64 = (v as u64) * 7;
        let scaled: u64 = wide / 10;
        proof {
            vstd::arithmetic::div_mod::lemma_div_is_ordered(7 * v, 10 * v, 10);
            vstd::arithmetic::div_mod::lemma_div_multiples_vanish(v as int, 10);
        }
        scaled as i32
    } else {
        let m: u64 = (-(v as i64)) as u64;
        let wide: u64 = m * 7;
        let scaled: u64 = wide / 10;
        proof {
            vstd::arithmetic::div_mod::lemma_div_is_ordered(7 * (m as int), 10 * (m as int), 10);
            vstd::arithmetic::div_mod::lemma_div_multiples_vanish(m as int, 10);
            vstd::arithmetic::div_mod::lemma_div_pos_is_pos(7 * (m as int), 10);
        }
        -(scaled as i32)
    }
}

} // verus!
