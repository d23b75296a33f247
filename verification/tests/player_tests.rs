use tile_arena::player::Direction;
use tile_arena::player::Player;
use tile_arena::player::grid_index_of;
use tile_arena::projectile::Projectile;
use tile_arena::scale_by_factor;
use tile_arena::tile::TileMap;
use tile_arena::tile::TileState;

fn fresh_map() -> TileMap {
    TileMap::new(10, 18)
}

fn fresh_player() -> Player {
    // Pixel position (170, 235): sub-units (1700, 2350), grid cell (5, 6).
    Player::new(1, 170, 235, Direction::DOWN)
}

#[test]
fn new_player_fields() {
    let p = fresh_player();
    assert_eq!(p.id, 1);
    assert_eq!(p.pos_x, 1700);
    assert_eq!(p.pos_y, 2350);
    assert_eq!(p.vel_x, 0);
    assert_eq!(p.vel_y, 0);
    assert_eq!(p.dir, Direction::DOWN);
    assert!(p.tile.is_none());
    assert!(!p.is_dead);
}

#[test]
fn velocity_sets_facing_and_zero_keeps_it() {
    let mut p = fresh_player();
    p.set_vel_x(-20);
    assert_eq!(p.dir, Direction::LEFT);
    p.set_vel_y(20);
    assert_eq!(p.dir, Direction::DOWN);
    p.set_vel_y(0);
    assert_eq!(p.dir, Direction::DOWN);
    p.set_vel_x(20);
    assert_eq!(p.dir, Direction::RIGHT);
}

#[test]
fn late_key_release_does_not_clobber_new_press() {
    let mut p = fresh_player();
    p.set_vel_x(-20);
    // The opposite key's release leaves the velocity alone.
    p.on_dir_released(Direction::RIGHT);
    assert_eq!(p.vel_x, -20);
    // Releasing the direction still held zeroes it.
    p.on_dir_released(Direction::LEFT);
    assert_eq!(p.vel_x, 0);
    p.set_vel_y(20);
    p.on_dir_released(Direction::UP);
    assert_eq!(p.vel_y, 20);
    p.on_dir_released(Direction::DOWN);
    assert_eq!(p.vel_y, 0);
}

#[test]
fn straight_movement_integrates_velocity() {
    let map = fresh_map();
    let mut projectiles: Vec<Projectile> = Vec::new();
    let mut p = fresh_player();
    p.set_vel_x(20);
    p.update(&mut projectiles, &map, 1000);
    assert_eq!(p.pos_x, 1720);
    assert_eq!(p.pos_y, 2350);
    // The hitbox recentres under the 32 by 32 pixel sprite.
    assert_eq!(p.hitbox.top_x, 1720 - 160);
    assert_eq!(p.hitbox.top_y, 2350 - 160);
    assert!(!p.is_dead);
}

#[test]
fn diagonal_movement_scales_each_axis_by_seven_tenths() {
    let map = fresh_map();
    let mut projectiles: Vec<Projectile> = Vec::new();
    let mut p = fresh_player();
    p.set_vel_x(20);
    p.set_vel_y(20);
    p.update(&mut projectiles, &map, 1000);
    assert_eq!(p.pos_x, 1714);
    assert_eq!(p.pos_y, 2364);
}

#[test]
fn frame_factor_scales_movement() {
    let map = fresh_map();
    let mut projectiles: Vec<Projectile> = Vec::new();
    let mut p = fresh_player();
    p.set_vel_x(20);
    p.update(&mut projectiles, &map, 500);
    assert_eq!(p.pos_x, 1710);

    let mut q = fresh_player();
    q.set_vel_x(20);
    q.set_vel_y(20);
    q.update(&mut projectiles, &map, 500);
    // The diagonal-adjusted 14 sub-units halve to 7.
    assert_eq!(q.pos_x, 1707);
}

#[test]
fn missing_floor_under_player_kills_on_next_update() {
    let map = {
        let mut m = fresh_map();
        m.set_state(5, 6, TileState::EMPTY);
        m
    };
    let mut projectiles: Vec<Projectile> = Vec::new();
    let mut p = fresh_player();
    p.update(&mut projectiles, &map, 1000);
    assert!(p.is_dead);
}

#[test]
fn walking_onto_border_kills() {
    let map = fresh_map();
    let mut projectiles: Vec<Projectile> = Vec::new();
    // Pixel column 20 is grid column 0, the missing border ring.
    let mut p = Player::new(1, 20, 235, Direction::LEFT);
    p.update(&mut projectiles, &map, 1000);
    assert!(p.is_dead);
}

#[test]
fn dead_player_update_is_a_no_op() {
    let map = {
        let mut m = fresh_map();
        m.set_state(5, 6, TileState::EMPTY);
        m
    };
    let mut projectiles: Vec<Projectile> = Vec::new();
    let mut p = fresh_player();
    p.update(&mut projectiles, &map, 1000);
    assert!(p.is_dead);
    let parked_x = p.pos_x;
    let parked_y = p.pos_y;
    p.set_vel_x(20);
    p.update(&mut projectiles, &map, 1000);
    p.update(&mut projectiles, &map, 1000);
    assert_eq!(p.pos_x, parked_x);
    assert_eq!(p.pos_y, parked_y);
    assert!(p.is_dead);
}

#[test]
fn dead_player_action_is_a_no_op() {
    let mut map = fresh_map();
    map.set_state(5, 6, TileState::EMPTY);
    let mut projectiles: Vec<Projectile> = Vec::new();
    let mut p = fresh_player();
    p.update(&mut projectiles, &map, 1000);
    assert!(p.is_dead);
    p.on_action(&mut map, &mut projectiles);
    assert!(p.tile.is_none());
    assert_eq!(projectiles.len(), 0);
    assert_eq!(map.get_state(5, 7), TileState::FULL);
}

#[test]
fn action_picks_up_then_throws() {
    let mut map = fresh_map();
    let mut projectiles: Vec<Projectile> = Vec::new();
    let mut p = fresh_player();

    // Facing down from cell (5, 6), the pickup targets cell (5, 7), whose
    // row-major decoration is (7 - 1) * 8 + (5 - 1) + 1.
    p.on_action(&mut map, &mut projectiles);
    assert_eq!(map.get_state(5, 7), TileState::EMPTY);
    assert_eq!(p.tile.unwrap().image_id, 53);
    assert_eq!(p.tile_image_id, 53);
    assert_eq!(projectiles.len(), 0);

    // The second press throws: the projectile spawns one facing offset from
    // the player, moving at the throw speed, decorated like the picked tile.
    p.on_action(&mut map, &mut projectiles);
    assert!(p.tile.is_none());
    assert_eq!(projectiles.len(), 1);
    let thrown = projectiles[0];
    assert_eq!(thrown.owner, 1);
    assert_eq!(thrown.pos_x, 1700 - 160);
    assert_eq!(thrown.pos_y, 2350 + 160);
    assert_eq!(thrown.vel_x, 0);
    assert_eq!(thrown.vel_y, 10);
    assert_eq!(thrown.sprite_id, 53);
    assert!(!thrown.is_dead);
}

#[test]
fn second_pickup_at_emptied_cell_is_a_no_op() {
    let mut map = fresh_map();
    let mut projectiles: Vec<Projectile> = Vec::new();
    let mut p = fresh_player();
    p.on_action(&mut map, &mut projectiles);
    assert_eq!(map.get_state(5, 7), TileState::EMPTY);

    // Set the carried tile aside so the next press attempts a pickup again:
    // the cell is now missing, so nothing at all changes.
    p.tile = None;
    p.on_action(&mut map, &mut projectiles);
    assert!(p.tile.is_none());
    assert_eq!(p.tile_image_id, 53);
    assert_eq!(map.get_state(5, 7), TileState::EMPTY);
    assert_eq!(map.get_state(5, 8), TileState::FULL);
    assert_eq!(projectiles.len(), 0);
}

#[test]
fn throw_carries_diagonal_player_momentum() {
    let mut map = fresh_map();
    let mut projectiles: Vec<Projectile> = Vec::new();
    let mut p = fresh_player();
    p.on_action(&mut map, &mut projectiles);
    p.set_vel_x(20);
    p.set_vel_y(20);
    // Facing ends DOWN (the vertical key was pressed last).
    p.on_action(&mut map, &mut projectiles);
    let thrown = projectiles[0];
    assert_eq!(thrown.vel_x, 14);
    assert_eq!(thrown.vel_y, 14 + 10);
}

#[test]
fn pickup_offsets_follow_facing() {
    for (dir, cell) in [
        (Direction::UP, (5usize, 5usize)),
        (Direction::DOWN, (5, 7)),
        (Direction::LEFT, (4, 6)),
        (Direction::RIGHT, (6, 6)),
    ] {
        let mut map = fresh_map();
        let mut projectiles: Vec<Projectile> = Vec::new();
        let mut p = Player::new(1, 170, 235, dir);
        p.on_action(&mut map, &mut projectiles);
        assert_eq!(map.get_state(cell.0, cell.1), TileState::EMPTY);
        assert!(p.tile.is_some());
    }
}

#[test]
fn facing_degrees_match_sprite_rotation() {
    let mut p = fresh_player();
    assert_eq!(p.get_facing_degrees(), 0);
    p.set_vel_y(-20);
    assert_eq!(p.get_facing_degrees(), 180);
    p.set_vel_x(-20);
    assert_eq!(p.get_facing_degrees(), 90);
    p.set_vel_x(20);
    assert_eq!(p.get_facing_degrees(), 270);
}

#[test]
fn grid_index_clamps_to_the_grid() {
    assert_eq!(grid_index_of(-5, 10), 0);
    assert_eq!(grid_index_of(0, 10), 0);
    assert_eq!(grid_index_of(339, 10), 0);
    assert_eq!(grid_index_of(340, 10), 1);
    assert_eq!(grid_index_of(3399, 10), 9);
    assert_eq!(grid_index_of(1_000_000, 10), 9);
}

#[test]
fn factor_scaling_truncates_toward_zero() {
    assert_eq!(scale_by_factor(20, 1700), 34);
    assert_eq!(scale_by_factor(-20, 1700), -34);
    assert_eq!(scale_by_factor(15, 1100), 16);
    assert_eq!(scale_by_factor(-15, 1100), -16);
    assert_eq!(scale_by_factor(7, 0), 0);
    assert_eq!(scale_by_factor(0, 99_999), 0);
}
