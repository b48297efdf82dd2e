use time_travel::direction::{rotation_between, FacingDirection, MovementDirection, Rotation};
use time_travel::geometry::Position;
use time_travel::player::{
    get_new_angle_and_facing_direction_for_pdi, interact, rotate_player_direction_indicator, Player,
    PlayerDirectionIndicator,
};
use time_travel::resources::{Controls, KeyBindings, KeyCode};

use FacingDirection::{Down, Left, Right, Up};
use Rotation::{Half, Quarter, ThreeQuarters, Zero};

fn held(up: bool, down: bool, left: bool, right: bool) -> Controls {
    Controls { up, down, left, right, interact: false, fire: false, hookshot: false }
}

fn table() -> [(FacingDirection, FacingDirection, Rotation); 16] {
    [
        (Up, Up, Zero),
        (Up, Down, Half),
        (Up, Left, ThreeQuarters),
        (Up, Right, Quarter),
        (Down, Up, Half),
        (Down, Down, Zero),
        (Down, Left, Quarter),
        (Down, Right, ThreeQuarters),
        (Left, Up, Quarter),
        (Left, Down, ThreeQuarters),
        (Left, Left, Zero),
        (Left, Right, Half),
        (Right, Up, ThreeQuarters),
        (Right, Down, Quarter),
        (Right, Left, Half),
        (Right, Right, Zero),
    ]
}

#[test]
fn default_bindings() {
    let bindings = KeyBindings::default();
    assert_eq!(bindings.up, KeyCode::W);
    assert_eq!(bindings.down, KeyCode::S);
    assert_eq!(bindings.left, KeyCode::A);
    assert_eq!(bindings.right, KeyCode::D);
    assert_eq!(bindings.interact, KeyCode::I);
    assert_eq!(bindings.fire, KeyCode::F);
    assert_eq!(bindings.hookshot, KeyCode::H);
}

#[test]
fn the_table_of_turns() {
    for (to, from, turn) in table() {
        assert_eq!(rotation_between(from, to), turn);
    }
}

#[test]
fn a_committed_mover_draws_the_indicator() {
    let bindings = KeyBindings::default();
    for (to, from, turn) in table() {
        for key in [KeyCode::W, KeyCode::S, KeyCode::A, KeyCode::D, KeyCode::Up, KeyCode::Space] {
            let result = get_new_angle_and_facing_direction_for_pdi(to.to_movement(), from, key, &bindings);
            assert_eq!(result, (turn, to));
        }
    }
}

#[test]
fn a_held_key_turns_the_indicator_of_a_mover_at_rest() {
    let bindings = KeyBindings::default();
    for (to, from, turn) in table() {
        let key = match to {
            Up => bindings.up,
            Down => bindings.down,
            Left => bindings.left,
            Right => bindings.right,
        };
        let result = get_new_angle_and_facing_direction_for_pdi(MovementDirection::Neutral, from, key, &bindings);
        assert_eq!(result, (turn, to));
    }
}

#[test]
fn a_key_that_is_not_bound_turns_nothing() {
    let bindings = KeyBindings::default();
    for from in [Up, Down, Left, Right] {
        for key in [KeyCode::Up, KeyCode::Down, KeyCode::Left, KeyCode::Right, KeyCode::F, KeyCode::Escape] {
            let result =
                get_new_angle_and_facing_direction_for_pdi(MovementDirection::Neutral, from, key, &bindings);
            assert_eq!(result, (Zero, from));
        }
    }
}

#[test]
fn a_key_bound_twice_counts_for_the_first_direction() {
    let bindings = KeyBindings {
        up: KeyCode::X,
        down: KeyCode::X,
        left: KeyCode::Y,
        right: KeyCode::Y,
        interact: KeyCode::I,
        fire: KeyCode::F,
        hookshot: KeyCode::H,
    };
    let first = get_new_angle_and_facing_direction_for_pdi(MovementDirection::Neutral, Right, KeyCode::X, &bindings);
    assert_eq!(first, (Quarter, Up));
    let second = get_new_angle_and_facing_direction_for_pdi(MovementDirection::Neutral, Right, KeyCode::Y, &bindings);
    assert_eq!(second, (Half, Left));
}

#[test]
fn turns_in_degrees() {
    assert_eq!(Zero.degrees(), 0);
    assert_eq!(Quarter.degrees(), 90);
    assert_eq!(Half.degrees(), 180);
    assert_eq!(ThreeQuarters.degrees(), 270);
}

#[test]
fn turns_add_up_to_whole_turns() {
    assert_eq!(Quarter.then_turn(ThreeQuarters), Zero);
    assert_eq!(Half.then_turn(Half), Zero);
    assert_eq!(ThreeQuarters.then_turn(ThreeQuarters), Half);
    assert_eq!(Quarter.then_turn(Quarter), Half);
    assert_eq!(Zero.then_turn(ThreeQuarters), ThreeQuarters);
    assert_eq!(Half.then_turn(ThreeQuarters), Quarter);
}

#[test]
fn the_turn_from_up() {
    assert_eq!(Up.rotation_from_up(), Zero);
    assert_eq!(Left.rotation_from_up(), Quarter);
    assert_eq!(Down.rotation_from_up(), Half);
    assert_eq!(Right.rotation_from_up(), ThreeQuarters);
}

#[test]
fn directions_of_travel_and_of_facing() {
    assert_eq!(Up.to_movement(), MovementDirection::Up);
    assert_eq!(Down.to_movement(), MovementDirection::Down);
    assert_eq!(Left.to_movement(), MovementDirection::Left);
    assert_eq!(Right.to_movement(), MovementDirection::Right);
    assert_eq!(MovementDirection::Up.to_facing(), Some(Up));
    assert_eq!(MovementDirection::Down.to_facing(), Some(Down));
    assert_eq!(MovementDirection::Left.to_facing(), Some(Left));
    assert_eq!(MovementDirection::Right.to_facing(), Some(Right));
    assert_eq!(MovementDirection::Neutral.to_facing(), None);
}

#[test]
fn a_new_indicator_points_up() {
    let indicator = PlayerDirectionIndicator::new();
    assert_eq!(indicator.facing_direction(), Up);
    assert_eq!(indicator.rotation(), Zero);
}

#[test]
fn the_indicator_keeps_count_of_its_turns() {
    let bindings = KeyBindings::default();
    let resting = Player::new(4000, MovementDirection::Neutral);
    let mut indicator = PlayerDirectionIndicator::new();
    let turn = rotate_player_direction_indicator(&mut indicator, &resting, &held(false, false, true, false), &bindings);
    assert_eq!((turn, indicator.facing_direction(), indicator.rotation()), (Quarter, Left, Quarter));
    let turn = rotate_player_direction_indicator(&mut indicator, &resting, &held(false, false, true, false), &bindings);
    assert_eq!((turn, indicator.facing_direction(), indicator.rotation()), (Zero, Left, Quarter));
    let turn = rotate_player_direction_indicator(&mut indicator, &resting, &held(false, true, false, false), &bindings);
    assert_eq!((turn, indicator.facing_direction(), indicator.rotation()), (Quarter, Down, Half));
    let turn = rotate_player_direction_indicator(&mut indicator, &resting, &held(false, false, false, true), &bindings);
    assert_eq!((turn, indicator.facing_direction(), indicator.rotation()), (Quarter, Right, ThreeQuarters));
    let turn = rotate_player_direction_indicator(&mut indicator, &resting, &held(true, false, false, true), &bindings);
    assert_eq!((turn, indicator.facing_direction(), indicator.rotation()), (Quarter, Up, Zero));
    let turn = rotate_player_direction_indicator(&mut indicator, &resting, &held(false, true, true, true), &bindings);
    assert_eq!((turn, indicator.facing_direction(), indicator.rotation()), (Half, Down, Half));
}

#[test]
fn the_indicator_rests_without_keys_under_a_mover_at_rest() {
    let bindings = KeyBindings::default();
    let resting = Player::new(4000, MovementDirection::Neutral);
    let mut indicator = PlayerDirectionIndicator { facing_direction: Right, rotation: ThreeQuarters };
    let turn = rotate_player_direction_indicator(&mut indicator, &resting, &held(false, false, false, false), &bindings);
    assert_eq!((turn, indicator.facing_direction(), indicator.rotation()), (Zero, Right, ThreeQuarters));
}

#[test]
fn the_indicator_follows_a_committed_mover_whatever_key_is_held() {
    let bindings = KeyBindings::default();
    let going_left = Player::new(4000, MovementDirection::Left);
    for keys in [held(false, false, false, false), held(true, false, false, false), held(false, false, false, true)] {
        let mut indicator = PlayerDirectionIndicator::new();
        let turn = rotate_player_direction_indicator(&mut indicator, &going_left, &keys, &bindings);
        assert_eq!((turn, indicator.facing_direction(), indicator.rotation()), (Quarter, Left, Quarter));
    }
}

#[test]
fn the_indicator_stands_off_the_centre_of_the_mover() {
    let player = Position { x: 10, y: 20 };
    let mut indicator = PlayerDirectionIndicator::new();
    assert_eq!(indicator.translation(&player), Position { x: 10, y: 36 });
    indicator.facing_direction = Down;
    assert_eq!(indicator.translation(&player), Position { x: 10, y: 4 });
    indicator.facing_direction = Left;
    assert_eq!(indicator.translation(&player), Position { x: -6, y: 20 });
    indicator.facing_direction = Right;
    assert_eq!(indicator.translation(&player), Position { x: 26, y: 20 });
}

#[test]
fn the_held_key_is_the_first_in_order() {
    let bindings = KeyBindings::default();
    assert_eq!(held(true, true, true, true).held_key(&bindings), Some(KeyCode::W));
    assert_eq!(held(false, true, true, true).held_key(&bindings), Some(KeyCode::S));
    assert_eq!(held(false, false, true, true).held_key(&bindings), Some(KeyCode::A));
    assert_eq!(held(false, false, false, true).held_key(&bindings), Some(KeyCode::D));
    assert_eq!(held(false, false, false, false).held_key(&bindings), None);
    assert_eq!(Controls::none(), held(false, false, false, false));
}

#[test]
fn interact_sends_one_event_on_a_key_press() {
    let place = Position { x: 5, y: 16 };
    let sent = interact(true, &place, &Left);
    assert!(sent.is_some());
    let event = sent.unwrap();
    assert_eq!(event.pdi_translation(), place);
    assert_eq!(event.facing_direction(), Left);
    assert_eq!(interact(false, &place, &Left), None);
}
