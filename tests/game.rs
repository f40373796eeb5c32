use kaiju_homes::{
    sheet_frames, Building, Input, Monster, MonsterState, Rectangle, Vector, World, COORD_LIMIT,
};

fn rest() -> Input {
    Input { mouse_down: false, pointer: Vector::new(0, 0), right: false, left: false, space: false }
}

fn keys(right: bool, left: bool, space: bool) -> Input {
    Input { right, left, space, ..rest() }
}

fn mouse_at(x: i64) -> Input {
    Input { mouse_down: true, pointer: Vector::new(x, 0), ..rest() }
}

fn world_with_monster_at(x: i64, y: i64) -> World {
    let mut w = World::new();
    w.monster.position = Vector::new(x, y);
    w
}

#[test]
fn mouse_direction_right_left_and_dead_zone() {
    let m = Monster::new(Vector::new(1000, 0));
    assert_eq!(m.mouse_direction(Vector::new(1150, 0)), 1);
    assert_eq!(m.mouse_direction(Vector::new(850, 0)), -1);
    assert_eq!(m.mouse_direction(Vector::new(1050, 0)), 0);
}

#[test]
fn mouse_direction_dead_zone_edges_are_neutral() {
    let m = Monster::new(Vector::new(1000, 0));
    assert_eq!(m.mouse_direction(Vector::new(1100, 0)), 0);
    assert_eq!(m.mouse_direction(Vector::new(900, 0)), 0);
    assert_eq!(m.mouse_direction(Vector::new(1101, 0)), 1);
    assert_eq!(m.mouse_direction(Vector::new(899, 0)), -1);
}

#[test]
fn mouse_direction_at_extreme_coordinates() {
    let m = Monster::new(Vector::new(i64::MAX, 0));
    assert_eq!(m.mouse_direction(Vector::new(i64::MAX, 0)), 0);
    assert_eq!(m.mouse_direction(Vector::new(i64::MIN, 0)), -1);
}

#[test]
fn mouse_wins_over_right_key() {
    let mut w = world_with_monster_at(1000, 5200);
    let input = Input { right: true, ..mouse_at(500) };
    w.update(&input);
    assert_eq!(w.monster.position, Vector::new(975, 5200));
    assert_eq!(w.monster.facing, 1);
    assert_eq!(w.monster.state, MonsterState::Walking);
}

#[test]
fn mouse_in_dead_zone_attacks_despite_right_key() {
    let mut w = world_with_monster_at(2000, 4500);
    let input = Input { right: true, ..mouse_at(2050) };
    w.update(&input);
    assert_eq!(w.monster.position, Vector::new(2000, 4500));
    assert_eq!(w.monster.state, MonsterState::Attack);
    assert_eq!(w.buildings[0].position.y, 4515);
}

#[test]
fn right_key_beats_left_and_space() {
    let mut w = world_with_monster_at(1000, 5200);
    w.update(&keys(true, true, true));
    assert_eq!(w.monster.position.x, 1025);
    assert_eq!(w.monster.facing, -1);
    assert_eq!(w.monster.state, MonsterState::Walking);
}

#[test]
fn left_key_beats_space() {
    let mut w = world_with_monster_at(1000, 5200);
    w.update(&keys(false, true, true));
    assert_eq!(w.monster.position.x, 975);
    assert_eq!(w.monster.facing, 1);
    assert_eq!(w.monster.state, MonsterState::Walking);
}

#[test]
fn squash_accumulates_over_attack_frames() {
    let mut w = world_with_monster_at(2000, 4500);
    let others: Vec<Building> = w.buildings.clone();
    for _ in 0..40 {
        w.update(&keys(false, false, true));
    }
    assert_eq!(w.monster.state, MonsterState::Attack);
    assert_eq!(w.buildings[0].position.y, w.buildings[0].start_position.y + 15 * 40);
    assert_eq!(w.buildings[0].position.y, 5100);
    assert_eq!(w.buildings[0].position.x, 2000);
    assert_eq!(w.buildings[0].splash_area, others[0].splash_area);
    // The reach spans x from 755 to 3245: the second building (splash from
    // 2550 to 3050) is hit too, the third (from 3350) is not.
    assert_eq!(w.buildings[1].position.y, 5250 + 15 * 40);
    for k in 2..w.buildings.len() {
        assert_eq!(w.buildings[k], others[k]);
    }
}

#[test]
fn attack_without_overlap_moves_nothing() {
    let mut w = world_with_monster_at(50000, 4500);
    let before: Vec<Building> = w.buildings.clone();
    w.update(&keys(false, false, true));
    w.update(&keys(false, false, true));
    assert_eq!(w.monster.state, MonsterState::Attack);
    assert_eq!(w.buildings, before);
}

#[test]
fn attack_from_start_position_misses_first_building() {
    // The reach ends at x = 1745, the first splash area starts at 1750.
    let mut w = World::new();
    let before: Vec<Building> = w.buildings.clone();
    w.update(&keys(false, false, true));
    assert_eq!(w.buildings, before);
}

#[test]
fn displacement_drives_the_wobble() {
    let mut b = Building::new(Vector::new(2000, 4500));
    assert_eq!(b.displacement(), 0);
    let reach = Rectangle::with_center(Vector::new(2490, 2000), Vector::new(2000, 4500));
    b.strike(&reach);
    b.strike(&reach);
    assert_eq!(b.displacement(), 30);
    assert_eq!(b.start_position, Vector::new(2000, 4500));
}

#[test]
fn facing_persists_through_idle() {
    let mut w = World::new();
    w.update(&keys(true, false, false));
    w.update(&rest());
    assert_eq!(w.monster.state, MonsterState::Idle);
    assert_eq!(w.monster.facing, -1);
    w.update(&keys(false, true, false));
    w.update(&rest());
    assert_eq!(w.monster.state, MonsterState::Idle);
    assert_eq!(w.monster.facing, 1);
}

#[test]
fn facing_persists_through_attack() {
    let mut w = World::new();
    w.update(&keys(true, false, false));
    w.update(&keys(false, false, true));
    assert_eq!(w.monster.state, MonsterState::Attack);
    assert_eq!(w.monster.facing, -1);
}

#[test]
fn walking_right_is_never_clamped() {
    let mut w = World::new();
    for _ in 0..1000 {
        w.update(&keys(true, false, false));
    }
    assert_eq!(w.monster.position, Vector::new(500 + 25 * 1000, 5200));
}

#[test]
fn walking_left_goes_off_screen() {
    let mut w = World::new();
    for _ in 0..100 {
        w.update(&keys(false, true, false));
    }
    assert_eq!(w.monster.position.x, 500 - 2500);
}

#[test]
fn new_world_layout() {
    let w = World::new();
    assert_eq!(w.monster.position, Vector::new(500, 5200));
    assert_eq!(w.monster.facing, 1);
    assert_eq!(w.monster.state, MonsterState::Idle);
    assert_eq!(w.buildings.len(), 9);
    assert_eq!(w.buildings[0].position, Vector::new(2000, 4500));
    assert_eq!(w.buildings[8].start_position, Vector::new(8400, 5000));
    assert_eq!(
        w.buildings[0].splash_area,
        Rectangle::new(Vector::new(1750, 3000), Vector::new(500, 3000))
    );
}

#[test]
fn fits_detects_coordinates_out_of_range() {
    let mut w = World::new();
    assert!(w.fits());
    w.monster.position.x = COORD_LIMIT + 1;
    assert!(!w.fits());
    let mut w = World::new();
    w.buildings[3].position.y = -COORD_LIMIT - 1;
    assert!(!w.fits());
}

#[test]
fn overlap_needs_shared_area() {
    let a = Rectangle::new(Vector::new(0, 0), Vector::new(10, 10));
    let touching = Rectangle::new(Vector::new(10, 0), Vector::new(10, 10));
    let crossing = Rectangle::new(Vector::new(9, 9), Vector::new(10, 10));
    assert!(!a.overlaps(&touching));
    assert!(a.overlaps(&crossing));
    assert!(crossing.overlaps(&a));
}

#[test]
fn with_center_places_corner() {
    let r = Rectangle::with_center(Vector::new(2490, 2000), Vector::new(500, 5200));
    assert_eq!(r.pos, Vector::new(-745, 4200));
    assert_eq!(r.size, Vector::new(2490, 2000));
}

#[test]
fn sheet_frames_three_rows() {
    let f = sheet_frames(3);
    assert_eq!(f.len(), 15);
    assert_eq!(f[0], Rectangle::new(Vector::new(0, 0), Vector::new(2490, 2000)));
    assert_eq!(f[7], Rectangle::new(Vector::new(4980, 2000), Vector::new(2490, 2000)));
    assert_eq!(f[14], Rectangle::new(Vector::new(9960, 4000), Vector::new(2490, 2000)));
}

#[test]
fn sheet_frames_edge_row_counts() {
    assert_eq!(sheet_frames(0).len(), 0);
    assert_eq!(sheet_frames(5).len(), 25);
    assert_eq!(sheet_frames(9).len(), 25);
    assert_eq!(sheet_frames(usize::MAX).len(), 25);
    assert_eq!(sheet_frames(5)[24].pos, Vector::new(9960, 8000));
}
