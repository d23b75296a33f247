//! The top-level game state: two players, the tile grid, and the transient
//! projectile and animation collections, with one fixed-order update per
//! frame and plain-value entry points for the host's input events.

use vstd::prelude::*;
use crate::MAX_FACTOR;
use crate::SUBUNITS;
use crate::anim::Anim;
use crate::hitbox::Hitbox;
use crate::player::Direction;
use crate::player::PLAYER_SIZE;
use crate::player::Player;
use crate::player::spec_pickup_post;
use crate::projectile::Projectile;
use crate::projectile::TILE_EXTENT;
use crate::tile::TILE_SPACE_SUB;
use crate::tile::TileMap;
use crate::tilesheet::TILE_SHEET_NUM_ACROSS;
use crate::tilesheet::TILE_SHEET_NUM_DOWN;

verus! {

/// Playfield width in tiles: the decorative sheet plus the border ring.
pub const NUM_TILES_X: usize = TILE_SHEET_NUM_ACROSS + 2;

/// Playfield height in tiles: the decorative sheet plus the border ring.
pub const NUM_TILES_Y: usize = TILE_SHEET_NUM_DOWN + 2;

/// Playfield width in pixels: `NUM_TILES_X` columns of `TILE_SPACE` each.
pub const WINDOW_WIDTH: usize = 10 * 34;

/// Playfield height in pixels: `NUM_TILES_Y` rows of `TILE_SPACE` each.
pub const WINDOW_HEIGHT: usize = 18 * 34;

/// Walking speed: two pixels per expected frame, in sub-units.
pub const PLAYER_SPEED: i32 = 20;

/// Vertical spawn distance from the playfield's near edge, in pixels.
pub const PLAYER_SPAWN_OFFSET: usize = 235;

/// One control of a player's set: four movement keys and the action key.
#[derive(Clone, Copy, PartialEq, Eq, Structural, Debug)]
pub enum Control {
    UP,
    DOWN,
    LEFT,
    RIGHT,
    ACTION,
}

/// The playfield's horizontal despawn bound for projectiles, in sub-units.
pub open spec fn spec_window_bound_x() -> int {
    WINDOW_WIDTH * SUBUNITS
}

/// The playfield's vertical despawn bound for projectiles, in sub-units.
pub open spec fn spec_window_bound_y() -> int {
    WINDOW_HEIGHT * SUBUNITS
}

/// A player as a round spawns it, at a pixel position, still, alive,
/// carrying nothing.
pub open spec fn spec_spawned_player(id: u32, px: int, py: int, dir: Direction) -> Player {
    Player {
        id,
        pos_x: (px * SUBUNITS) as i32,
        pos_y: (py * SUBUNITS) as i32,
        width: PLAYER_SIZE,
        height: PLAYER_SIZE,
        vel_x: 0,
        vel_y: 0,
        dir,
        tile: None,
        tile_image_id: 1,
        hitbox: Hitbox {
            top_x: (px * SUBUNITS) as i32,
            top_y: (py * SUBUNITS) as i32,
            width: PLAYER_SIZE as i32,
            height: PLAYER_SIZE as i32,
        },
        is_dead: false,
    }
}

/// A live player stands on the playfield, at least one tile pitch from the
/// near edges and short of the far border columns; a dead player is parked
/// wherever it died.
pub open spec fn spec_player_on_field(p: Player) -> bool {
    !p.is_dead ==> {
        &&& TILE_SPACE_SUB <= p.pos_x < (NUM_TILES_X - 1) * (TILE_SPACE_SUB as int)
        &&& TILE_SPACE_SUB <= p.pos_y < (NUM_TILES_Y - 1) * (TILE_SPACE_SUB as int)
    }
}

/// A projectile the state retains: well-formed and inside the extended
/// playfield.
pub open spec fn spec_proj_in_field(q: Projectile) -> bool {
    &&& q.wf()
    &&& -TILE_EXTENT <= q.pos_x <= spec_window_bound_x()
    &&& -TILE_EXTENT <= q.pos_y <= spec_window_bound_y()
}

/// A movement key applied to a player: sets that axis's velocity and turns
/// the player; the action key changes nothing here.
pub open spec fn spec_move_applied(p: Player, control: Control) -> Player {
    match control {
        Control::UP => Player { vel_y: ((-PLAYER_SPEED) as i32), dir: Direction::UP, ..p },
        Control::DOWN => Player { vel_y: PLAYER_SPEED, dir: Direction::DOWN, ..p },
        Control::LEFT => Player { vel_x: ((-PLAYER_SPEED) as i32), dir: Direction::LEFT, ..p },
        Control::RIGHT => Player { vel_x: PLAYER_SPEED, dir: Direction::RIGHT, ..p },
        Control::ACTION => p,
    }
}

/// What the action key leaves behind for one player: nothing when dead, a
/// pickup attempt when empty-handed, a throw when carrying.
pub open spec fn spec_action_post(
    pre_p: Player,
    pre_m: TileMap,
    pre_projs: Seq<Projectile>,
    post_p: Player,
    post_m: TileMap,
    post_projs: Seq<Projectile>,
) -> bool {
    if pre_p.is_dead {
        post_p == pre_p && post_m == pre_m && post_projs == pre_projs
    } else if pre_p.tile.is_none() {
        spec_pickup_post(pre_p, pre_m, post_p, post_m) && post_projs == pre_projs
    } else {
        &&& post_p == (Player { tile: None, ..pre_p })
        &&& post_m == pre_m
        &&& post_projs == pre_projs.push(pre_p.spec_thrown())
    }
}

/// One player's share of a frame: a dead player changes nothing; a live one
/// moves, dies over missing floor or to any live opposing projectile that
/// overlaps its recentred hitbox, and kills every projectile that hit it.
pub open spec fn spec_step_player(p: Player, projs: Seq<Projectile>, m: TileMap, factor: int) -> (
    Player,
    Seq<Projectile>,
) {
    if p.is_dead {
        (p, projs)
    } else {
        let moved = p.spec_after_move(factor);
        let hit_any = exists|j: int| 0 <= j < projs.len() && moved.spec_hits(#[trigger] projs[j]);
        let stepped = Player { is_dead: moved.spec_footing_empty(m) || hit_any, ..moved };
        let struck = Seq::new(
            projs.len(),
            |j: int|
                if moved.spec_hits(projs[j]) {
                    Projectile { is_dead: true, ..projs[j] }
                } else {
                    projs[j]
                },
        );
        (stepped, struck)
    }
}

/// Death is terminal within an episode: a frame neither revives nor moves a
/// dead player, and leaves the projectiles exactly as that player found
/// them; only the explicit reset builds a live player again.
pub proof fn lemma_death_is_terminal(p: Player, projs: Seq<Projectile>, m: TileMap, factor: int)
    requires
        p.is_dead,
    ensures
        spec_step_player(p, projs, m, factor).0 == p,
        spec_step_player(p, projs, m, factor).1 == projs,
{
}

/// Every projectile after one frame of travel.
pub open spec fn spec_projs_moved(projs: Seq<Projectile>, factor: int) -> Seq<Projectile> {
    projs.map_values(|q: Projectile| q.spec_moved(factor))
}

/// The hit effects this frame's projectile pass appends: one per dead
/// projectile, in collection order, each at its projectile's moved position.
pub open spec fn spec_spawned_anims(projs: Seq<Projectile>, factor: int) -> Seq<Anim>
    decreases projs.len(),
{
    if projs.len() == 0 {
        Seq::empty()
    } else {
        spec_spawned_anims(projs.drop_last(), factor) + (if projs.last().is_dead {
            seq![projs.last().spec_moved(factor).spec_hit_anim()]
        } else {
            Seq::empty()
        })
    }
}

/// The projectiles that survive the end-of-frame prune: those neither killed
/// nor out of the extended playfield, in order.
pub open spec fn spec_despawn_filter(projs: Seq<Projectile>) -> Seq<Projectile>
    decreases projs.len(),
{
    if projs.len() == 0 {
        Seq::empty()
    } else {
        let rest = spec_despawn_filter(projs.drop_last());
        if projs.last().spec_despawned(spec_window_bound_x(), spec_window_bound_y()) {
            rest
        } else {
            rest.push(projs.last())
        }
    }
}

/// Every animation after one tick.
pub open spec fn spec_anims_stepped(anims: Seq<Anim>) -> Seq<Anim> {
    anims.map_values(|a: Anim| a.spec_stepped())
}

/// The animations that survive the end-of-frame prune, in order.
pub open spec fn spec_anims_pruned(anims: Seq<Anim>) -> Seq<Anim>
    decreases anims.len(),
{
    if anims.len() == 0 {
        Seq::empty()
    } else {
        let rest = spec_anims_pruned(anims.drop_last());
        if anims.last().is_dead {
            rest
        } else {
            rest.push(anims.last())
        }
    }
}

/// Every projectile the prune keeps comes from the pruned sequence and is
/// neither killed nor out of bounds.
proof fn lemma_despawn_filter_elems(s: Seq<Projectile>)
    ensures
        forall|i: int|
            0 <= i < spec_despawn_filter(s).len() ==> exists|j: int|
                0 <= j < s.len() && (#[trigger] spec_despawn_filter(s)[i]) == s[j]
                    && !s[j].spec_despawned(spec_window_bound_x(), spec_window_bound_y()),
    decreases s.len(),
{
    if s.len() != 0 {
        lemma_despawn_filter_elems(s.drop_last());
        let rest = spec_despawn_filter(s.drop_last());
        assert forall|i: int| 0 <= i < spec_despawn_filter(s).len() implies exists|j: int|
            0 <= j < s.len() && (#[trigger] spec_despawn_filter(s)[i]) == s[j]
                && !s[j].spec_despawned(spec_window_bound_x(), spec_window_bound_y()) by {
            if i < rest.len() {
                let j = choose|j: int|
                    0 <= j < s.drop_last().len() && rest[i] == s.drop_last()[j]
                        && !s.drop_last()[j].spec_despawned(
                        spec_window_bound_x(),
                        spec_window_bound_y(),
                    );
                assert(s[j] == s.drop_last()[j]);
                assert(spec_despawn_filter(s)[i] == s[j] && !s[j].spec_despawned(
                    spec_window_bound_x(),
                    spec_window_bound_y(),
                ));
            } else {
                assert(spec_despawn_filter(s)[i] == s[s.len() - 1]);
            }
        }
    }
}

/// Every animation the prune keeps comes from the pruned sequence and is
/// not expired.
proof fn lemma_anims_pruned_elems(s: Seq<Anim>)
    ensures
        forall|i: int|
            0 <= i < spec_anims_pruned(s).len() ==> exists|j: int|
                0 <= j < s.len() && (#[trigger] spec_anims_pruned(s)[i]) == s[j] && !s[j].is_dead,
    decreases s.len(),
{
    if s.len() != 0 {
        lemma_anims_pruned_elems(s.drop_last());
        let rest = spec_anims_pruned(s.drop_last());
        assert forall|i: int| 0 <= i < spec_anims_pruned(s).len() implies exists|j: int|
            0 <= j < s.len() && (#[trigger] spec_anims_pruned(s)[i]) == s[j]
                && !s[j].is_dead by {
            if i < rest.len() {
                let j = choose|j: int|
                    0 <= j < s.drop_last().len() && rest[i] == s.drop_last()[j]
                        && !s.drop_last()[j].is_dead;
                assert(s[j] == s.drop_last()[j]);
                assert(spec_anims_pruned(s)[i] == s[j] && !s[j].is_dead);
            } else {
                assert(spec_anims_pruned(s)[i] == s[s.len() - 1]);
            }
        }
    }
}

/// Every hit effect the projectile pass appends is a well-formed animation.
proof fn lemma_spawned_anims_wf(projs: Seq<Projectile>, factor: int)
    ensures
        forall|i: int|
            0 <= i < spec_spawned_anims(projs, factor).len() ==> (#[trigger] spec_spawned_anims(
                projs,
                factor,
            )[i]).wf(),
    decreases projs.len(),
{
    if projs.len() != 0 {
        lemma_spawned_anims_wf(projs.drop_last(), factor);
        let rest = spec_spawned_anims(projs.drop_last(), factor);
        assert forall|i: int|
            0 <= i < spec_spawned_anims(projs, factor).len() implies (
        #[trigger] spec_spawned_anims(projs, factor)[i]).wf() by {
            if i < rest.len() {
                assert(spec_spawned_anims(projs, factor)[i] == rest[i]);
            } else {
                assert(spec_spawned_anims(projs, factor)[i] == projs.last().spec_moved(
                    factor,
                ).spec_hit_anim());
            }
        }
    }
}

/// Drops every projectile that was killed or left the extended playfield,
/// keeping the rest in order.
#[verifier::loop_isolation(false)]
fn prune_projectiles(v: &mut Vec<Projectile>)
    ensures
        final(v)@ == spec_despawn_filter(old(v)@),
{
    let bound_x = (WINDOW_WIDTH as i32) * SUBUNITS;
    let bound_y = (WINDOW_HEIGHT as i32) * SUBUNITS;
    let mut kept: Vec<Projectile> = Vec::new();
    let mut i: usize = 0;
    while i < v.len()
        invariant
            i <= v@.len(),
            kept@ == spec_despawn_filter(v@.subrange(0, i as int)),
        decreases v@.len() - i,
    {
        let q = v[i];
        if !q.is_dead(bound_x, bound_y) {
            kept.push(q);
        }
        proof {
            let s1 = v@.subrange(0, (i + 1) as int);
            assert(s1.drop_last() =~= v@.subrange(0, i as int));
            assert(s1.last() == v@[i as int]);
        }
        i = i + 1;
    }
    proof {
        assert(v@.subrange(0, v@.len() as int) =~= v@);
    }
    *v = kept;
}

/// Drops every expired animation, keeping the rest in order.
#[verifier::loop_isolation(false)]
fn prune_anims(v: &mut Vec<Anim>)
    ensures
        final(v)@ == spec_anims_pruned(old(v)@),
{
    let mut kept: Vec<Anim> = Vec::new();
    let mut i: usize = 0;
    while i < v.len()
        invariant
            i <= v@.len(),
            kept@ == spec_anims_pruned(v@.subrange(0, i as int)),
        decreases v@.len() - i,
    {
        let a = v[i];
        if !a.is_dead() {
            kept.push(a);
        }
        proof {
            let s1 = v@.subrange(0, (i + 1) as int);
            assert(s1.drop_last() =~= v@.subrange(0, i as int));
            assert(s1.last() == v@[i as int]);
        }
        i = i + 1;
    }
    proof {
        assert(v@.subrange(0, v@.len() as int) =~= v@);
    }
    *v = kept;
}

/// The whole game: both players, the grid, and the transient collections.
pub struct MainState {
    pub player1: Player,
    pub player2: Player,
    pub tile_map: TileMap,
    pub projectiles: Vec<Projectile>,
    pub anims: Vec<Anim>,
}

impl MainState {
    /// The playfield has its fixed dimensions with the border ring missing,
    /// the players carry their ids, live players stand on the field, and
    /// every retained projectile and animation is well-formed.
    pub open spec fn wf(self) -> bool {
        &&& self.tile_map.wf()
        &&& self.tile_map.num_tiles_x == NUM_TILES_X
        &&& self.tile_map.num_tiles_y == NUM_TILES_Y
        &&& self.tile_map.border_empty()
        &&& self.player1.id == 1
        &&& self.player2.id == 2
        &&& self.player1.wf()
        &&& self.player2.wf()
        &&& spec_player_on_field(self.player1)
        &&& spec_player_on_field(self.player2)
        &&& forall|i: int|
            0 <= i < self.projectiles@.len() ==> spec_proj_in_field(
                #[trigger] self.projectiles@[i],
            )
        &&& forall|i: int| 0 <= i < self.anims@.len() ==> (#[trigger] self.anims@[i]).wf()
    }

    /// A fresh match: player 1 spawns in the upper half facing down, player
    /// 2 mirrored below facing up, the grid full inside its missing border,
    /// nothing in flight.
    pub fn new() -> (r: MainState)
        ensures
            r.player1 == spec_spawned_player(
                1,
                (WINDOW_WIDTH / 2) as int,
                PLAYER_SPAWN_OFFSET as int,
                Direction::DOWN,
            ),
            r.player2 == spec_spawned_player(
                2,
                (WINDOW_WIDTH / 2) as int,
                (WINDOW_HEIGHT - PLAYER_SPAWN_OFFSET) as int,
                Direction::UP,
            ),
            r.tile_map.is_fresh(NUM_TILES_X as int, NUM_TILES_Y as int),
            r.projectiles@ == Seq::<Projectile>::empty(),
            r.anims@ == Seq::<Anim>::empty(),
            r.wf(),
    {
        MainState {
            player1: Player::new(
                1,
                (WINDOW_WIDTH / 2) as u32,
                PLAYER_SPAWN_OFFSET as u32,
                Direction::DOWN,
            ),
            player2: Player::new(
                2,
                (WINDOW_WIDTH / 2) as u32,
                (WINDOW_HEIGHT - PLAYER_SPAWN_OFFSET) as u32,
                Direction::UP,
            ),
            tile_map: TileMap::new(NUM_TILES_X, NUM_TILES_Y),
            projectiles: Vec::new(),
            anims: Vec::new(),
        }
    }

    /// The global reset command: rebuilds the whole match as
    /// [`MainState::new`] does. This is the only way a dead player revives
    /// or the floor refills.
    pub fn reset(&mut self)
        ensures
            final(self).player1 == spec_spawned_player(
                1,
                (WINDOW_WIDTH / 2) as int,
                PLAYER_SPAWN_OFFSET as int,
                Direction::DOWN,
            ),
            final(self).player2 == spec_spawned_player(
                2,
                (WINDOW_WIDTH / 2) as int,
                (WINDOW_HEIGHT - PLAYER_SPAWN_OFFSET) as int,
                Direction::UP,
            ),
            final(self).tile_map.is_fresh(NUM_TILES_X as int, NUM_TILES_Y as int),
            final(self).projectiles@ == Seq::<Projectile>::empty(),
            final(self).anims@ == Seq::<Anim>::empty(),
            final(self).wf(),
    {
        *self = MainState::new();
    }

    /// One frame, in the fixed order later entities observe earlier ones'
    /// post-update state in: player 1 moves and resolves hits, then player
    /// 2, then every projectile flies (dead ones leaving their hit effect),
    /// despawned projectiles are pruned, every animation ticks, and expired
    /// animations are pruned. The grid itself never changes here.
    #[verifier::loop_isolation(false)]
    #[verifier::rlimit(30)]
    pub fn update(&mut self, factor: u32)
        requires
            old(self).wf(),
            factor <= MAX_FACTOR,
        ensures
            final(self).wf(),
            final(self).tile_map == old(self).tile_map,
            ({
                let st = *old(self);
                let r1 = spec_step_player(st.player1, st.projectiles@, st.tile_map, factor as int);
                let r2 = spec_step_player(st.player2, r1.1, st.tile_map, factor as int);
                &&& final(self).player1 == r1.0
                &&& final(self).player2 == r2.0
                &&& final(self).projectiles@ == spec_despawn_filter(
                    spec_projs_moved(r2.1, factor as int),
                )
                &&& final(self).anims@ == spec_anims_pruned(
                    spec_anims_stepped(st.anims@ + spec_spawned_anims(r2.1, factor as int)),
                )
            }),
    {
        let ghost st = *old(self);
        let ghost r1 = spec_step_player(st.player1, st.projectiles@, st.tile_map, factor as int);
        let ghost r2 = spec_step_player(st.player2, r1.1, st.tile_map, factor as int);

        self.player1.update(&mut self.projectiles, &self.tile_map, factor);
        proof {
            if !st.player1.is_dead {
                assert(self.projectiles@ =~= r1.1);
            }
            assert(self.player1 == r1.0);
            assert(self.projectiles@ == r1.1);
            assert forall|j: int|
                0 <= j < self.projectiles@.len() implies spec_proj_in_field(
                #[trigger] self.projectiles@[j],
            ) by {
                assert(spec_proj_in_field(st.projectiles@[j]));
            }
        }

        self.player2.update(&mut self.projectiles, &self.tile_map, factor);
        proof {
            if !st.player2.is_dead {
                assert(self.projectiles@ =~= r2.1);
            }
            assert(self.player2 == r2.0);
            assert(self.projectiles@ == r2.1);
            assert forall|j: int|
                0 <= j < self.projectiles@.len() implies spec_proj_in_field(
                #[trigger] self.projectiles@[j],
            ) by {
                assert(spec_proj_in_field(r1.1[j]));
            }
        }

        let ghost projs_mid = self.projectiles@;
        let ghost anims0 = self.anims@;
        let ghost p1_done = self.player1;
        let ghost p2_done = self.player2;
        proof {
            assert(spec_spawned_anims(projs_mid.subrange(0, 0), factor as int)
                =~= Seq::<Anim>::empty());
            assert(anims0 + spec_spawned_anims(projs_mid.subrange(0, 0), factor as int)
                =~= anims0);
            assert forall|j: int|
                0 <= j < projs_mid.len() implies (#[trigger] projs_mid[j]).wf()
                && projs_mid[j].pos_bounded() by {
                assert(spec_proj_in_field(projs_mid[j]));
            }
        }

        let mut i: usize = 0;
        while i < self.projectiles.len()
            invariant
                i <= projs_mid.len(),
                self.projectiles@.len() == projs_mid.len(),
                forall|j: int|
                    i <= j < projs_mid.len() ==> self.projectiles@[j] == projs_mid[j],
                forall|j: int|
                    0 <= j < i ==> self.projectiles@[j] == (#[trigger] projs_mid[j]).spec_moved(
                        factor as int,
                    ) && self.projectiles@[j].wf(),
                self.anims@ == anims0 + spec_spawned_anims(
                    projs_mid.subrange(0, i as int),
                    factor as int,
                ),
                self.player1 == p1_done,
                self.player2 == p2_done,
                self.tile_map == st.tile_map,
            decreases projs_mid.len() - i,
        {
            proof {
                assert(projs_mid[i as int].wf() && projs_mid[i as int].pos_bounded());
            }
            self.projectiles[i].update(factor, &mut self.anims);
            proof {
                let s1 = projs_mid.subrange(0, (i + 1) as int);
                assert(s1.drop_last() =~= projs_mid.subrange(0, i as int));
                assert(s1.last() == projs_mid[i as int]);
                assert(self.anims@ =~= anims0 + spec_spawned_anims(s1, factor as int));
            }
            i = i + 1;
        }
        proof {
            assert(projs_mid.subrange(0, projs_mid.len() as int) =~= projs_mid);
            assert(self.projectiles@ =~= spec_projs_moved(projs_mid, factor as int));
            assert(self.anims@ == anims0 + spec_spawned_anims(projs_mid, factor as int));
        }
        let ghost flying = self.projectiles@;

        prune_projectiles(&mut self.projectiles);

        let ghost anims_all = self.anims@;
        proof {
            lemma_spawned_anims_wf(projs_mid, factor as int);
            assert forall|j: int|
                0 <= j < anims_all.len() implies (#[trigger] anims_all[j]).wf() by {
                if j < anims0.len() {
                    assert(anims_all[j] == anims0[j]);
                } else {
                    assert(anims_all[j] == spec_spawned_anims(projs_mid, factor as int)[j
                        - anims0.len()]);
                }
            }
        }
        let ghost projs_done = self.projectiles@;

        let mut k: usize = 0;
        while k < self.anims.len()
            invariant
                k <= anims_all.len(),
                self.anims@.len() == anims_all.len(),
                forall|j: int| k <= j < anims_all.len() ==> self.anims@[j] == anims_all[j],
                forall|j: int|
                    0 <= j < k ==> self.anims@[j] == (#[trigger] anims_all[j]).spec_stepped()
                        && self.anims@[j].wf(),
                self.player1 == p1_done,
                self.player2 == p2_done,
                self.tile_map == st.tile_map,
                self.projectiles@ == projs_done,
            decreases anims_all.len() - k,
        {
            proof {
                assert(anims_all[k as int].wf());
            }
            self.anims[k].update();
            k = k + 1;
        }
        proof {
            assert(self.anims@ =~= spec_anims_stepped(anims_all));
        }
        let ghost anims_stepped = self.anims@;

        prune_anims(&mut self.anims);

        proof {
            lemma_despawn_filter_elems(flying);
            assert forall|j: int|
                0 <= j < self.projectiles@.len() implies spec_proj_in_field(
                #[trigger] self.projectiles@[j],
            ) by {
                let w = choose|w: int|
                    0 <= w < flying.len() && self.projectiles@[j] == flying[w]
                        && !flying[w].spec_despawned(spec_window_bound_x(), spec_window_bound_y());
                assert(flying[w].wf());
            }
            lemma_anims_pruned_elems(anims_stepped);
            assert forall|j: int|
                0 <= j < self.anims@.len() implies (#[trigger] self.anims@[j]).wf() by {
                let w = choose|w: int|
                    0 <= w < anims_stepped.len() && self.anims@[j] == anims_stepped[w]
                        && !anims_stepped[w].is_dead;
                assert(anims_stepped[w].wf());
            }
            assert(spec_player_on_field(self.player1));
            assert(spec_player_on_field(self.player2));
        }
    }

    /// A pressed key: movement keys set the addressed player's velocity and
    /// facing, the action key picks up or throws; ids other than 1 and 2
    /// address nobody.
    pub fn key_down(&mut self, player_id: u32, control: Control)
        requires
            old(self).wf(),
        ensures
            final(self).wf(),
            player_id != 1 && player_id != 2 ==> *final(self) == *old(self),
            player_id == 1 && control != Control::ACTION ==> *final(self) == (MainState {
                player1: spec_move_applied(old(self).player1, control),
                ..*old(self)
            }),
            player_id == 2 && control != Control::ACTION ==> *final(self) == (MainState {
                player2: spec_move_applied(old(self).player2, control),
                ..*old(self)
            }),
            player_id == 1 && control == Control::ACTION ==> spec_action_post(
                old(self).player1,
                old(self).tile_map,
                old(self).projectiles@,
                final(self).player1,
                final(self).tile_map,
                final(self).projectiles@,
            ) && final(self).player2 == old(self).player2 && final(self).anims == old(self).anims,
            player_id == 2 && control == Control::ACTION ==> spec_action_post(
                old(self).player2,
                old(self).tile_map,
                old(self).projectiles@,
                final(self).player2,
                final(self).tile_map,
                final(self).projectiles@,
            ) && final(self).player1 == old(self).player1 && final(self).anims == old(self).anims,
    {
        if player_id == 1 {
            match control {
                Control::UP => self.player1.set_vel_y(-PLAYER_SPEED),
                Control::DOWN => self.player1.set_vel_y(PLAYER_SPEED),
                Control::LEFT => self.player1.set_vel_x(-PLAYER_SPEED),
                Control::RIGHT => self.player1.set_vel_x(PLAYER_SPEED),
                Control::ACTION => {
                    self.player1.on_action(&mut self.tile_map, &mut self.projectiles);
                    proof {
                        lemma_action_keeps_wf(*old(self), *self, old(self).player1, self.player1);
                    }
                },
            }
        } else if player_id == 2 {
            match control {
                Control::UP => self.player2.set_vel_y(-PLAYER_SPEED),
                Control::DOWN => self.player2.set_vel_y(PLAYER_SPEED),
                Control::LEFT => self.player2.set_vel_x(-PLAYER_SPEED),
                Control::RIGHT => self.player2.set_vel_x(PLAYER_SPEED),
                Control::ACTION => {
                    self.player2.on_action(&mut self.tile_map, &mut self.projectiles);
                    proof {
                        lemma_action_keeps_wf(*old(self), *self, old(self).player2, self.player2);
                    }
                },
            }
        }
    }

    /// A released movement key: the addressed player's axis is zeroed only
    /// while its velocity still points the released way.
    pub fn key_up(&mut self, player_id: u32, dir: Direction)
        requires
            old(self).wf(),
        ensures
            final(self).wf(),
            player_id != 1 && player_id != 2 ==> *final(self) == *old(self),
            player_id == 1 ==> *final(self) == (MainState {
                player1: old(self).player1.spec_dir_released(dir),
                ..*old(self)
            }),
            player_id == 2 ==> *final(self) == (MainState {
                player2: old(self).player2.spec_dir_released(dir),
                ..*old(self)
            }),
    {
        if player_id == 1 {
            self.player1.on_dir_released(dir);
        } else if player_id == 2 {
            self.player2.on_dir_released(dir);
        }
    }
}

/// The action key keeps the state well-formed: a pickup empties one solid
/// cell, which cannot be a border cell's refill, and a throw spawns its
/// projectile one facing offset from a player standing on the field, which
/// keeps it inside the extended playfield.
proof fn lemma_action_keeps_wf(pre: MainState, post: MainState, actor_pre: Player, actor_post: Player)
    requires
        pre.wf(),
        spec_action_post(
            actor_pre,
            pre.tile_map,
            pre.projectiles@,
            actor_post,
            post.tile_map,
            post.projectiles@,
        ),
        actor_pre.wf(),
        spec_player_on_field(actor_pre),
        !actor_pre.is_dead && actor_pre.tile.is_some() ==> actor_pre.spec_thrown().wf(),
        actor_pre == pre.player1 || actor_pre == pre.player2,
        actor_pre == pre.player1 ==> post == (MainState {
            player1: actor_post,
            tile_map: post.tile_map,
            projectiles: post.projectiles,
            ..pre
        }),
        actor_pre == pre.player2 ==> post == (MainState {
            player2: actor_post,
            tile_map: post.tile_map,
            projectiles: post.projectiles,
            ..pre
        }),
    ensures
        post.wf(),
{
    if !actor_pre.is_dead && actor_pre.tile.is_some() {
        let thrown = actor_pre.spec_thrown();
        assert(spec_proj_in_field(thrown));
        assert(post.projectiles@ == pre.projectiles@.push(thrown));
        assert forall|i: int|
            0 <= i < post.projectiles@.len() implies spec_proj_in_field(
            #[trigger] post.projectiles@[i],
        ) by {
            if i < pre.projectiles@.len() {
                assert(post.projectiles@[i] == pre.projectiles@[i]);
                assert(spec_proj_in_field(pre.projectiles@[i]));
            } else {
                assert(post.projectiles@[i] == thrown);
            }
        }
    }
}

} // verus!
