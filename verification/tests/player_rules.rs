use topdown_rpg::components::{AnimationIndices, Direction, Velocity};
use topdown_rpg::player::{
    choose_sheet, fire, hero_start, laser_shot, sprite_flip_x, steer, walk_sheet_for, ArrowKeys,
    SheetChoice, IDLE_SHEET, WALK_BACK_SHEET, WALK_FRONT_SHEET, WALK_SIDE_SHEET,
};

fn keys(left: bool, right: bool, down: bool, up: bool) -> ArrowKeys {
    ArrowKeys { left, right, down, up }
}

#[test]
fn no_key_stops_and_keeps_facing() {
    let (v, d) = steer(keys(false, false, false, false), Direction::Left);
    assert_eq!(v, Velocity { x: 0, y: 0 });
    assert_eq!(d, Direction::Left);
}

#[test]
fn left_wins_over_right() {
    let (v, d) = steer(keys(true, true, false, false), Direction::Up);
    assert_eq!(v, Velocity { x: -1, y: 0 });
    assert_eq!(d, Direction::Left);
}

#[test]
fn right_alone_moves_right() {
    let (v, d) = steer(keys(false, true, false, false), Direction::Down);
    assert_eq!(v, Velocity { x: 1, y: 0 });
    assert_eq!(d, Direction::Right);
}

#[test]
fn down_wins_over_up() {
    let (v, d) = steer(keys(false, false, true, true), Direction::Left);
    assert_eq!(v, Velocity { x: 0, y: -1 });
    assert_eq!(d, Direction::Down);
}

#[test]
fn vertical_key_decides_facing_on_a_diagonal() {
    let (v, d) = steer(keys(false, true, false, true), Direction::Down);
    assert_eq!(v, Velocity { x: 1, y: 1 });
    assert_eq!(d, Direction::Up);
}

#[test]
fn steering_twice_changes_nothing() {
    let k = keys(true, false, false, true);
    let (v1, d1) = steer(k, Direction::Right);
    let (v2, d2) = steer(k, d1);
    assert_eq!((v1, d1), (v2, d2));
}

#[test]
fn only_left_facing_sprites_are_flipped() {
    assert!(sprite_flip_x(Direction::Left));
    assert!(!sprite_flip_x(Direction::Right));
    assert!(!sprite_flip_x(Direction::Up));
    assert!(!sprite_flip_x(Direction::Down));
}

#[test]
fn lasers_fly_the_way_the_hero_faces() {
    let up = laser_shot(Direction::Up);
    assert_eq!((up.velocity.x, up.velocity.y, up.rotation_degrees), (0, 2, 0));
    let down = laser_shot(Direction::Down);
    assert_eq!((down.velocity.x, down.velocity.y, down.rotation_degrees), (0, -2, 180));
    let left = laser_shot(Direction::Left);
    assert_eq!((left.velocity.x, left.velocity.y, left.rotation_degrees), (-2, 0, 90));
    let right = laser_shot(Direction::Right);
    assert_eq!((right.velocity.x, right.velocity.y, right.rotation_degrees), (2, 0, -90));
    assert!(up.movable.auto_despawn && down.movable.auto_despawn);
    assert!(left.movable.auto_despawn && right.movable.auto_despawn);
}

#[test]
fn fire_only_when_the_key_goes_down() {
    assert_eq!(fire(Direction::Up, false), None);
    assert_eq!(fire(Direction::Left, true), Some(laser_shot(Direction::Left)));
}

#[test]
fn walking_sheets_follow_facing() {
    assert_eq!(walk_sheet_for(Direction::Up), WALK_BACK_SHEET);
    assert_eq!(walk_sheet_for(Direction::Down), WALK_FRONT_SHEET);
    assert_eq!(walk_sheet_for(Direction::Left), WALK_SIDE_SHEET);
    assert_eq!(walk_sheet_for(Direction::Right), WALK_SIDE_SHEET);
    assert_eq!((WALK_BACK_SHEET, WALK_FRONT_SHEET, WALK_SIDE_SHEET), (1, 2, 3));
}

#[test]
fn moving_hero_starts_its_walk() {
    let walk = Some(AnimationIndices { first: 0, last: 5 });
    assert_eq!(
        choose_sheet(Direction::Up, true, false),
        Some(SheetChoice { sheet: 1, frame: 0, indices: walk })
    );
    assert_eq!(
        choose_sheet(Direction::Down, true, false),
        Some(SheetChoice { sheet: 2, frame: 0, indices: walk })
    );
    assert_eq!(
        choose_sheet(Direction::Right, true, false),
        Some(SheetChoice { sheet: 3, frame: 0, indices: walk })
    );
}

#[test]
fn walking_hero_is_left_alone() {
    assert_eq!(choose_sheet(Direction::Left, true, true), None);
}

#[test]
fn still_hero_shows_its_idle_frame() {
    assert_eq!(
        choose_sheet(Direction::Up, false, false),
        Some(SheetChoice { sheet: IDLE_SHEET, frame: 2, indices: None })
    );
    assert_eq!(
        choose_sheet(Direction::Down, false, true),
        Some(SheetChoice { sheet: IDLE_SHEET, frame: 1, indices: None })
    );
    assert_eq!(
        choose_sheet(Direction::Left, false, false),
        Some(SheetChoice { sheet: IDLE_SHEET, frame: 0, indices: None })
    );
}

#[test]
fn sheet_choice_settles() {
    let first = choose_sheet(Direction::Down, true, false).unwrap();
    let again = choose_sheet(Direction::Down, true, first.sheet == walk_sheet_for(Direction::Down));
    assert_eq!(again, None);
}

#[test]
fn hero_enters_idle_facing_down() {
    let start = hero_start();
    assert_eq!(start.sheet, 0);
    assert_eq!(start.frame, 0);
    assert_eq!(start.indices, AnimationIndices { first: 0, last: 2 });
    assert_eq!(start.velocity, Velocity { x: 0, y: 0 });
    assert!(!start.movable.auto_despawn);
    assert_eq!(start.direction, Direction::Down);
    assert!(!start.flip_x);
}
