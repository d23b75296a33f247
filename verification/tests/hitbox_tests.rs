use tile_arena::hitbox::Hitbox;

#[test]
fn overlapping_boxes_collide_both_ways() {
    let a = Hitbox::new(0, 0, 320, 320);
    let b = Hitbox::new(100, 100, 320, 320);
    assert!(a.check_collision(&b));
    assert!(b.check_collision(&a));
}

#[test]
fn distant_boxes_do_not_collide() {
    let a = Hitbox::new(0, 0, 320, 320);
    let b = Hitbox::new(1000, 1000, 320, 320);
    assert!(!a.check_collision(&b));
    assert!(!b.check_collision(&a));
}

#[test]
fn test_is_asymmetric_at_exact_edge_contact() {
    // b's bottom edge exactly touches a's top edge: the non-strict early
    // exits make the test true one way and false the other, even though the
    // boxes have equal size.
    let a = Hitbox::new(0, 0, 320, 320);
    let b = Hitbox::new(0, -320, 320, 320);
    assert!(a.check_collision(&b));
    assert!(!b.check_collision(&a));
}

#[test]
fn side_by_side_boxes_touching_edges() {
    // b starts exactly at a's right edge: touching, one direction sees it.
    let a = Hitbox::new(0, 0, 320, 320);
    let b = Hitbox::new(320, 0, 320, 320);
    assert!(!a.check_collision(&b));
    assert!(b.check_collision(&a));
}

#[test]
fn one_subunit_overlap_collides() {
    let a = Hitbox::new(0, 0, 320, 320);
    let b = Hitbox::new(319, 319, 320, 320);
    assert!(a.check_collision(&b));
    assert!(b.check_collision(&a));
}

#[test]
fn small_box_inside_large_box() {
    let a = Hitbox::new(0, 0, 1000, 1000);
    let b = Hitbox::new(400, 400, 100, 100);
    assert!(a.check_collision(&b));
    assert!(b.check_collision(&a));
}
