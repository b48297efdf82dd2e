use time_travel::direction::{FacingDirection, MovementDirection, Rotation};
use time_travel::geometry::Position;
use time_travel::player::{
    camera_follow, displacement, get_auto_movement_speed, get_manual_movement_speed,
    get_new_angle_and_facing_direction_for_pdi, player_movement, Player,
};
use time_travel::resources::{Controls, KeyBindings, KeyCode};
use time_travel::TILE_SIZE;

const SECOND: u64 = 1_000_000_000;
const FRAME: u64 = 22_913_124;

#[test]
fn test_get_manual_movement_speed() {
    assert_eq!(get_manual_movement_speed(1000, SECOND), TILE_SIZE as i32);
}

#[test]
fn test_player_moving_neutral_up_pressed_pdi_facing_up() {
    let player_movement_direction = MovementDirection::Neutral;
    let pdi_facing_direction = FacingDirection::Up;
    let key_pressed = KeyCode::Up;
    let key_bindings = KeyBindings::default();
    let (new_rotation_angle, new_facing_direction) = get_new_angle_and_facing_direction_for_pdi(
        player_movement_direction,
        pdi_facing_direction,
        key_pressed,
        &key_bindings,
    );
    assert_eq!(new_rotation_angle, Rotation::Zero);
    assert_eq!(new_facing_direction, FacingDirection::Up);
}

#[test]
fn test_get_auto_movement_speed_up() {
    let mut player = Player { speed: 3000, movement_direction: MovementDirection::Up };
    let delta = FRAME;
    let translation = Position { x: 97, y: 55 };
    assert_eq!(get_auto_movement_speed(&translation, &delta, &mut player), 6);
    assert_eq!(player.movement_direction, MovementDirection::Up);
}

#[test]
fn test_get_auto_movement_speed_down() {
    let mut player = Player { speed: 3000, movement_direction: MovementDirection::Down };
    let delta = FRAME;
    let translation = Position { x: 97, y: 55 };
    assert_eq!(get_auto_movement_speed(&translation, &delta, &mut player), 6);
    assert_eq!(player.movement_direction, MovementDirection::Down);
}

#[test]
fn test_get_auto_movement_speed_left() {
    let mut player = Player { speed: 3000, movement_direction: MovementDirection::Left };
    let delta = FRAME;
    let translation = Position { x: 97, y: 55 };
    assert_eq!(get_auto_movement_speed(&translation, &delta, &mut player), 6);
    assert_eq!(player.movement_direction, MovementDirection::Left);
}

#[test]
fn test_get_auto_movement_speed_right() {
    let mut player = Player { speed: 3000, movement_direction: MovementDirection::Right };
    let delta = FRAME;
    let translation = Position { x: 97, y: 55 };
    assert_eq!(get_auto_movement_speed(&translation, &delta, &mut player), 3);
    assert_eq!(player.movement_direction, MovementDirection::Neutral);
}

#[test]
fn test_get_auto_movement_speed_up_negative() {
    let mut player = Player { speed: 3000, movement_direction: MovementDirection::Up };
    let delta = FRAME;
    let translation = Position { x: 97, y: -295 };
    assert_eq!(get_auto_movement_speed(&translation, &delta, &mut player), 6);
    assert_eq!(player.movement_direction, MovementDirection::Up);
}

#[test]
fn test_get_auto_movement_speed_down_negative() {
    let mut player = Player { speed: 3000, movement_direction: MovementDirection::Down };
    let delta = FRAME;
    let translation = Position { x: 97, y: -295 };
    assert_eq!(get_auto_movement_speed(&translation, &delta, &mut player), 5);
    assert_eq!(player.movement_direction, MovementDirection::Neutral);
}

fn at(x: i32, y: i32) -> Position {
    Position { x, y }
}

fn held(up: bool, down: bool, left: bool, right: bool) -> Controls {
    Controls { up, down, left, right, interact: false, fire: false, hookshot: false }
}

const TENTH: u64 = 100_000_000;

#[test]
fn displacement_drops_the_fraction() {
    assert_eq!(displacement(4000, 100, 16_666_667), 6);
    assert_eq!(displacement(4400, 100, 16_666_667), 7);
    assert_eq!(displacement(1000, 32, 500_000_000), 16);
    assert_eq!(displacement(999, 100, SECOND), 99);
    assert_eq!(displacement(7500, 100, TENTH), 75);
    assert_eq!(displacement(1, 1, 999_999_999_999), 0);
    assert_eq!(displacement(1, 1, 1_000_000_000_000), 1);
}

#[test]
fn displacement_of_no_time_or_no_speed_is_nothing() {
    assert_eq!(displacement(4000, 100, 0), 0);
    assert_eq!(displacement(0, 100, SECOND), 0);
    assert_eq!(displacement(4000, 0, SECOND), 0);
    assert_eq!(get_manual_movement_speed(4000, 0), 0);
}

#[test]
fn displacement_stops_at_the_largest_distance() {
    assert_eq!(displacement(u32::MAX, u32::MAX, u64::MAX), i32::MAX);
    assert_eq!(displacement(1000, 1, 2_147_483_647_000_000_000), i32::MAX);
    assert_eq!(displacement(1000, 1, 2_147_483_646_000_000_000), i32::MAX - 1);
    assert_eq!(displacement(1000, 1, 2_147_483_648_000_000_000), i32::MAX);
}

#[test]
fn auto_movement_without_time_keeps_the_commitment() {
    let mut player = Player { speed: 3000, movement_direction: MovementDirection::Up };
    assert_eq!(get_auto_movement_speed(&at(97, 55), &0, &mut player), 0);
    assert_eq!(player.movement_direction, MovementDirection::Up);
}

#[test]
fn auto_movement_from_a_grid_line() {
    let mut up = Player { speed: 3000, movement_direction: MovementDirection::Up };
    assert_eq!(get_auto_movement_speed(&at(100, 100), &FRAME, &mut up), 6);
    assert_eq!(up.movement_direction, MovementDirection::Up);
    let mut right = Player { speed: 3000, movement_direction: MovementDirection::Right };
    assert_eq!(get_auto_movement_speed(&at(0, 0), &SECOND, &mut right), 100);
    assert_eq!(right.movement_direction, MovementDirection::Neutral);
    let mut down = Player { speed: 3000, movement_direction: MovementDirection::Down };
    assert_eq!(get_auto_movement_speed(&at(100, 100), &FRAME, &mut down), 0);
    assert_eq!(down.movement_direction, MovementDirection::Neutral);
    let mut left = Player { speed: 3000, movement_direction: MovementDirection::Left };
    assert_eq!(get_auto_movement_speed(&at(0, 7), &FRAME, &mut left), 0);
    assert_eq!(left.movement_direction, MovementDirection::Neutral);
}

#[test]
fn auto_movement_from_a_grid_line_below_zero() {
    let mut up = Player { speed: 3000, movement_direction: MovementDirection::Up };
    assert_eq!(get_auto_movement_speed(&at(0, -300), &FRAME, &mut up), 6);
    assert_eq!(up.movement_direction, MovementDirection::Up);
    let mut down = Player { speed: 3000, movement_direction: MovementDirection::Down };
    assert_eq!(get_auto_movement_speed(&at(0, -300), &FRAME, &mut down), 0);
    assert_eq!(down.movement_direction, MovementDirection::Neutral);
    let mut left = Player { speed: 3000, movement_direction: MovementDirection::Left };
    assert_eq!(get_auto_movement_speed(&at(-295, 0), &FRAME, &mut left), 5);
    assert_eq!(left.movement_direction, MovementDirection::Neutral);
    let mut right = Player { speed: 3000, movement_direction: MovementDirection::Right };
    assert_eq!(get_auto_movement_speed(&at(-295, 0), &SECOND, &mut right), 95);
    assert_eq!(right.movement_direction, MovementDirection::Neutral);
}

#[test]
fn auto_movement_at_rest_is_nothing() {
    let mut player = Player { speed: 3000, movement_direction: MovementDirection::Neutral };
    assert_eq!(get_auto_movement_speed(&at(97, 55), &SECOND, &mut player), 0);
    assert_eq!(player.movement_direction, MovementDirection::Neutral);
}

#[test]
fn auto_movement_at_the_ends_of_the_range() {
    let mut up = Player { speed: u32::MAX, movement_direction: MovementDirection::Up };
    assert_eq!(get_auto_movement_speed(&at(0, i32::MAX), &u64::MAX, &mut up), 53);
    assert_eq!(up.movement_direction, MovementDirection::Neutral);
    let mut down = Player { speed: u32::MAX, movement_direction: MovementDirection::Down };
    assert_eq!(get_auto_movement_speed(&at(0, i32::MIN), &u64::MAX, &mut down), 52);
    assert_eq!(down.movement_direction, MovementDirection::Neutral);
}

#[test]
fn a_held_key_commits_a_mover_at_rest() {
    for (keys, direction, target) in [
        (held(true, false, false, false), MovementDirection::Up, at(0, 40)),
        (held(false, true, false, false), MovementDirection::Down, at(0, -40)),
        (held(false, false, true, false), MovementDirection::Left, at(-40, 0)),
        (held(false, false, false, true), MovementDirection::Right, at(40, 0)),
    ] {
        let mut player = Player::new(4000, MovementDirection::Neutral);
        let mut translation = at(0, 0);
        player_movement(&mut player, &mut translation, 1, &[], &keys, TENTH, false);
        assert_eq!(player.movement_direction, direction);
        assert_eq!(translation, target);
        assert_eq!(player.speed, 4000);
    }
}

#[test]
fn held_keys_are_taken_in_a_fixed_order() {
    let mut player = Player::new(4000, MovementDirection::Neutral);
    let mut translation = at(0, 0);
    player_movement(&mut player, &mut translation, 1, &[], &held(true, true, true, true), TENTH, false);
    assert_eq!((player.movement_direction, translation), (MovementDirection::Up, at(0, 40)));
    let mut player = Player::new(4000, MovementDirection::Neutral);
    let mut translation = at(0, 0);
    player_movement(&mut player, &mut translation, 1, &[], &held(false, true, true, true), TENTH, false);
    assert_eq!((player.movement_direction, translation), (MovementDirection::Down, at(0, -40)));
    let mut player = Player::new(4000, MovementDirection::Neutral);
    let mut translation = at(0, 0);
    player_movement(&mut player, &mut translation, 1, &[], &held(false, false, true, true), TENTH, false);
    assert_eq!((player.movement_direction, translation), (MovementDirection::Left, at(-40, 0)));
}

#[test]
fn a_key_of_another_direction_is_ignored_while_committed() {
    let mut player = Player::new(4000, MovementDirection::Up);
    let mut translation = at(0, 40);
    let right = held(false, false, false, true);
    player_movement(&mut player, &mut translation, 1, &[], &right, TENTH, false);
    assert_eq!((player.movement_direction, translation), (MovementDirection::Up, at(0, 80)));
    player_movement(&mut player, &mut translation, 1, &[], &right, TENTH, false);
    assert_eq!((player.movement_direction, translation), (MovementDirection::Neutral, at(0, 100)));
    player_movement(&mut player, &mut translation, 1, &[], &right, TENTH, false);
    assert_eq!((player.movement_direction, translation), (MovementDirection::Right, at(40, 100)));
}

#[test]
fn a_lower_key_takes_over_when_the_higher_is_not_free() {
    let mut player = Player::new(4000, MovementDirection::Left);
    let mut translation = at(50, 0);
    player_movement(&mut player, &mut translation, 1, &[], &held(true, false, true, false), TENTH, false);
    assert_eq!((player.movement_direction, translation), (MovementDirection::Left, at(10, 0)));
}

#[test]
fn a_mover_at_rest_without_keys_stays() {
    let mut player = Player::new(4000, MovementDirection::Neutral);
    let mut translation = at(13, 57);
    player_movement(&mut player, &mut translation, 1, &[], &held(false, false, false, false), SECOND, false);
    assert_eq!((player.movement_direction, translation), (MovementDirection::Neutral, at(13, 57)));
}

#[test]
fn an_obstacle_stops_the_mover() {
    let collidables = [(at(0, 100), 9)];
    let mut player = Player::new(4000, MovementDirection::Neutral);
    let mut translation = at(0, 0);
    player_movement(&mut player, &mut translation, 1, &collidables, &held(true, false, false, false), TENTH, false);
    assert_eq!((player.movement_direction, translation), (MovementDirection::Neutral, at(0, 0)));
    let mut player = Player::new(4000, MovementDirection::Neutral);
    let mut translation = at(0, 0);
    player_movement(&mut player, &mut translation, 1, &collidables, &held(false, true, false, false), TENTH, false);
    assert_eq!((player.movement_direction, translation), (MovementDirection::Down, at(0, -40)));
}

#[test]
fn an_obstacle_stops_a_mover_on_its_way_to_the_grid_line() {
    let collidables = [(at(150, 0), 9)];
    let mut player = Player::new(4000, MovementDirection::Right);
    let mut translation = at(40, 0);
    player_movement(&mut player, &mut translation, 1, &collidables, &held(false, false, false, false), TENTH, false);
    assert_eq!((player.movement_direction, translation), (MovementDirection::Neutral, at(40, 0)));
}

#[test]
fn the_mover_is_no_obstacle_to_itself() {
    let collidables = [(at(0, 40), 1)];
    let mut player = Player::new(4000, MovementDirection::Neutral);
    let mut translation = at(0, 0);
    player_movement(&mut player, &mut translation, 1, &collidables, &held(true, false, false, false), TENTH, false);
    assert_eq!((player.movement_direction, translation), (MovementDirection::Up, at(0, 40)));
}

#[test]
fn a_hookshot_that_is_out_holds_the_mover() {
    let mut player = Player::new(4000, MovementDirection::Up);
    let mut translation = at(0, 40);
    player_movement(&mut player, &mut translation, 1, &[], &held(true, false, false, true), TENTH, true);
    assert_eq!((player.movement_direction, translation), (MovementDirection::Up, at(0, 40)));
}

#[test]
fn the_camera_follows_beyond_the_dead_zone() {
    for (direction, player_at, camera_to) in [
        (MovementDirection::Up, at(0, 201), at(0, 44)),
        (MovementDirection::Down, at(0, -201), at(0, -44)),
        (MovementDirection::Left, at(-201, 0), at(-44, 0)),
        (MovementDirection::Right, at(201, 0), at(44, 0)),
    ] {
        let player = Player::new(4000, direction);
        let mut camera = at(0, 0);
        camera_follow(&player_at, &player, &mut camera, TENTH);
        assert_eq!(camera, camera_to);
    }
}

#[test]
fn the_camera_rests_within_the_dead_zone() {
    let mut camera = at(0, 0);
    camera_follow(&at(0, 200), &Player::new(4000, MovementDirection::Up), &mut camera, TENTH);
    assert_eq!(camera, at(0, 0));
    camera_follow(&at(900, 900), &Player::new(4000, MovementDirection::Neutral), &mut camera, TENTH);
    assert_eq!(camera, at(0, 0));
    camera_follow(&at(900, 0), &Player::new(4000, MovementDirection::Up), &mut camera, TENTH);
    assert_eq!(camera, at(0, 0));
    camera_follow(&at(0, 900), &Player::new(4000, MovementDirection::Left), &mut camera, TENTH);
    assert_eq!(camera, at(0, 0));
}

#[test]
fn the_camera_goes_the_way_of_the_mover_even_away_from_it() {
    let mut camera = at(0, 500);
    camera_follow(&at(0, 0), &Player::new(4000, MovementDirection::Up), &mut camera, TENTH);
    assert_eq!(camera, at(0, 544));
}

#[test]
fn the_camera_is_a_tenth_faster_than_the_mover() {
    let mut camera = at(0, 0);
    camera_follow(&at(0, 1000), &Player::new(3000, MovementDirection::Up), &mut camera, SECOND);
    assert_eq!(camera, at(0, 330));
    let mut camera = at(0, 0);
    camera_follow(&at(0, 1000), &Player::new(u32::MAX, MovementDirection::Up), &mut camera, 1_000);
    assert_eq!(camera, at(0, 429));
}
