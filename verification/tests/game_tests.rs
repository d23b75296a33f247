use tile_arena::anim::Anim;
use tile_arena::anim::AnimVariant;
use tile_arena::main_state::Control;
use tile_arena::main_state::MainState;
use tile_arena::player::Direction;
use tile_arena::projectile::Projectile;
use tile_arena::tile::TileState;

#[test]
fn fresh_match_layout() {
    let state = MainState::new();
    assert_eq!(state.player1.id, 1);
    assert_eq!(state.player2.id, 2);
    assert_eq!(state.player1.pos_x, 1700);
    assert_eq!(state.player1.pos_y, 2350);
    assert_eq!(state.player2.pos_x, 1700);
    assert_eq!(state.player2.pos_y, 3770);
    assert_eq!(state.player1.dir, Direction::DOWN);
    assert_eq!(state.player2.dir, Direction::UP);
    assert!(state.projectiles.is_empty());
    assert!(state.anims.is_empty());
    assert_eq!(state.tile_map.num_tiles_x, 10);
    assert_eq!(state.tile_map.num_tiles_y, 18);
    assert_eq!(state.tile_map.get_state(0, 0), TileState::EMPTY);
    assert_eq!(state.tile_map.get_state(5, 6), TileState::FULL);
}

#[test]
fn key_down_routes_movement_to_the_addressed_player() {
    let mut state = MainState::new();
    state.key_down(1, Control::LEFT);
    assert_eq!(state.player1.vel_x, -20);
    assert_eq!(state.player1.dir, Direction::LEFT);
    assert_eq!(state.player2.vel_x, 0);

    state.key_down(2, Control::UP);
    assert_eq!(state.player2.vel_y, -20);
    assert_eq!(state.player2.dir, Direction::UP);

    state.key_down(7, Control::RIGHT);
    assert_eq!(state.player1.vel_x, -20);
    assert_eq!(state.player2.vel_x, 0);
}

#[test]
fn key_up_releases_only_matching_velocity() {
    let mut state = MainState::new();
    state.key_down(1, Control::LEFT);
    state.key_up(1, Direction::RIGHT);
    assert_eq!(state.player1.vel_x, -20);
    state.key_up(1, Direction::LEFT);
    assert_eq!(state.player1.vel_x, 0);
}

#[test]
fn frame_moves_both_players() {
    let mut state = MainState::new();
    state.key_down(1, Control::RIGHT);
    state.key_down(2, Control::LEFT);
    state.update(1000);
    assert_eq!(state.player1.pos_x, 1720);
    assert_eq!(state.player2.pos_x, 1680);
    assert!(!state.player1.is_dead);
    assert!(!state.player2.is_dead);
}

#[test]
fn projectile_hit_kills_opponent_and_projectile_in_one_frame() {
    let mut state = MainState::new();
    // A projectile owned by player 1 sitting on player 2's position.
    state.projectiles.push(Projectile::new(
        1,
        state.player2.pos_x,
        state.player2.pos_y,
        0,
        0,
        9,
    ));
    state.update(1000);
    assert!(state.player2.is_dead);
    assert!(!state.player1.is_dead);
    // The killed projectile left exactly one hit effect and was pruned.
    assert!(state.projectiles.is_empty());
    assert_eq!(state.anims.len(), 1);
    assert_eq!(state.anims[0].variant, AnimVariant::RED);
    assert_eq!(state.anims[0].pos_x, state.player2.pos_x - 160);
    assert_eq!(state.anims[0].pos_y, state.player2.pos_y - 160);
}

#[test]
fn own_projectile_does_not_hurt_its_thrower() {
    let mut state = MainState::new();
    state.projectiles.push(Projectile::new(
        2,
        state.player2.pos_x,
        state.player2.pos_y,
        0,
        0,
        9,
    ));
    state.update(1000);
    assert!(!state.player2.is_dead);
    assert_eq!(state.projectiles.len(), 1);
    assert!(state.anims.is_empty());
}

#[test]
fn floor_opened_under_opponent_kills_on_next_frame() {
    let mut state = MainState::new();
    // Player 2 stands at cell (5, 11); empty the floor under it, as a pickup
    // from an adjacent player would.
    state.tile_map.set_state(5, 11, TileState::EMPTY);
    state.update(1000);
    assert!(state.player2.is_dead);
    assert!(!state.player1.is_dead);
}

#[test]
fn action_key_picks_up_and_then_throws_through_the_state() {
    let mut state = MainState::new();
    state.key_down(1, Control::ACTION);
    assert_eq!(state.tile_map.get_state(5, 7), TileState::EMPTY);
    assert_eq!(state.player1.tile.unwrap().image_id, 53);

    state.key_down(1, Control::ACTION);
    assert!(state.player1.tile.is_none());
    assert_eq!(state.projectiles.len(), 1);
    assert_eq!(state.projectiles[0].owner, 1);
    assert_eq!(state.projectiles[0].vel_y, 10);
}

#[test]
fn thrown_tile_crosses_the_arena_and_kills() {
    let mut state = MainState::new();
    // Player 1 turns to face down and throws a tile straight at player 2.
    state.key_down(1, Control::ACTION);
    state.key_down(1, Control::ACTION);
    let mut frames = 0;
    while !state.player2.is_dead && frames < 1000 {
        state.update(1000);
        frames += 1;
    }
    assert!(state.player2.is_dead);
    assert!(!state.player1.is_dead);
    assert!(state.projectiles.is_empty());
}

#[test]
fn zero_velocity_projectile_never_despawns_by_position() {
    let mut state = MainState::new();
    state.projectiles.push(Projectile::new(1, 500, 500, 0, 0, 3));
    for _ in 0..50 {
        state.update(1000);
    }
    assert_eq!(state.projectiles.len(), 1);
    assert_eq!(state.projectiles[0].pos_x, 500);
    assert_eq!(state.projectiles[0].pos_y, 500);
}

#[test]
fn projectile_flying_off_the_field_despawns_silently() {
    let mut state = MainState::new();
    state.projectiles.push(Projectile::new(1, 3000, 500, 100, 0, 3));
    let mut frames = 0;
    while !state.projectiles.is_empty() && frames < 100 {
        state.update(1000);
        frames += 1;
    }
    assert!(state.projectiles.is_empty());
    // Out-of-bounds despawns leave no hit effect behind.
    assert!(state.anims.is_empty());
}

#[test]
fn reset_revives_players_and_refills_the_floor() {
    let mut state = MainState::new();
    state.key_down(1, Control::ACTION);
    state.tile_map.set_state(5, 11, TileState::EMPTY);
    state.update(1000);
    assert!(state.player2.is_dead);

    state.reset();
    assert!(!state.player2.is_dead);
    assert_eq!(state.player1.pos_x, 1700);
    assert_eq!(state.tile_map.get_state(5, 7), TileState::FULL);
    assert_eq!(state.tile_map.get_state(5, 11), TileState::FULL);
    assert!(state.projectiles.is_empty());
    assert!(state.anims.is_empty());
}

#[test]
fn hit_effect_plays_out_and_expires() {
    let mut state = MainState::new();
    state.projectiles.push(Projectile::new(
        1,
        state.player2.pos_x,
        state.player2.pos_y,
        0,
        0,
        9,
    ));
    state.update(1000);
    assert_eq!(state.anims.len(), 1);
    // Three display frames held four ticks each: the effect expires on the
    // tick its counter reaches twelve.
    let mut frames = 0;
    while !state.anims.is_empty() && frames < 50 {
        state.update(1000);
        frames += 1;
    }
    assert_eq!(frames, 11);
}

#[test]
fn anim_counter_and_display_frame() {
    let mut anim = Anim::new(0, 0, AnimVariant::GREEN, 3, 4);
    assert_eq!(anim.frame, 1);
    assert_eq!(anim.display_frame(), 1);
    for _ in 0..4 {
        anim.update();
    }
    assert_eq!(anim.frame, 5);
    assert_eq!(anim.display_frame(), 2);
    for _ in 0..7 {
        anim.update();
    }
    assert_eq!(anim.frame, 12);
    assert_eq!(anim.display_frame(), 3);
    assert!(!anim.is_dead());
    anim.update();
    assert!(anim.is_dead());
    assert_eq!(anim.frame, 12);
}

#[test]
fn green_variant_for_player_two_projectiles() {
    let mut state = MainState::new();
    state.projectiles.push(Projectile::new(
        2,
        state.player1.pos_x,
        state.player1.pos_y,
        0,
        0,
        9,
    ));
    state.update(1000);
    assert!(state.player1.is_dead);
    assert_eq!(state.anims.len(), 1);
    assert_eq!(state.anims[0].variant, AnimVariant::GREEN);
}

#[test]
fn projectile_despawn_test_reads_the_extended_bounds() {
    let q = Projectile::new(1, -321, 0, 0, 0, 1);
    assert!(q.is_dead(3400, 6120));
    let q = Projectile::new(1, -320, 0, 0, 0, 1);
    assert!(!q.is_dead(3400, 6120));
    let q = Projectile::new(1, 3400, 6120, 0, 0, 1);
    assert!(!q.is_dead(3400, 6120));
    let q = Projectile::new(1, 3401, 6120, 0, 0, 1);
    assert!(q.is_dead(3400, 6120));
    let mut q = Projectile::new(1, 100, 100, 0, 0, 1);
    q.kill();
    assert!(q.is_dead(3400, 6120));
}
