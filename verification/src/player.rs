//! The mover, its commitment to a direction of travel, the indicator that
//! shows which way it faces, and the camera that follows it.

use vstd::prelude::*;
use crate::collisions::{any_hit, check_collision, tile_box};
use crate::direction::{rotation_between, turns_between, FacingDirection, MovementDirection, Rotation};
use crate::events::InteractionEvent;
use crate::geometry::{ahead, step_ahead, Position, Size};
use crate::resources::{Controls, KeyBindings, KeyCode};
use crate::TILE_SIZE;

verus! {

/// The speed of the mover, in thousandths of a tile per second.
pub const PLAYER_SPEED: u32 = 4000;

/// How far the indicator stands from the centre of the mover.
pub const INDICATOR_OFFSET: i32 = 16;

/// How far the camera may lag behind the mover before it follows: two tiles.
pub const CAMERA_DEAD_ZONE: u32 = 200;

/// The world units covered in `nanos` nanoseconds at `speed` thousandths of a
/// tile per second, on tiles of `tile_size` world units, fractions dropped.
pub open spec fn travelled(speed: int, tile_size: int, nanos: int) -> int {
    (speed * tile_size * nanos) / 1_000_000_000_000
}

/// A distance as an `i32` holds it: the largest `i32` stands for all above.
pub open spec fn capped(distance: int) -> int {
    if distance > i32::MAX {
        i32::MAX as int
    } else {
        distance
    }
}

/// The whole world units that a body of the given speed covers in `delta`
/// nanoseconds on tiles of the given size.
pub fn displacement(speed: u32, tile_size: u32, delta: u64) -> (distance: i32)
    ensures
        distance == capped(travelled(speed as int, tile_size as int, delta as int)),
        travelled(speed as int, tile_size as int, delta as int) <= i32::MAX ==> distance == travelled(
            speed as int,
            tile_size as int,
            delta as int,
        ),
        distance >= 0,
{
    assert(speed * tile_size <= 0xFFFF_FFFF * 0xFFFF_FFFF) by (nonlinear_arith)
        requires
            speed <= 0xFFFF_FFFF,
            tile_size <= 0xFFFF_FFFF,
    ;
    let per_second: u64 = speed as u64 * tile_size as u64;
    assert(per_second * delta <= 0xFFFF_FFFE_0000_0001 * 0xFFFF_FFFF_FFFF_FFFF) by (nonlinear_arith)
        requires
            per_second <= 0xFFFF_FFFE_0000_0001,
            delta <= 0xFFFF_FFFF_FFFF_FFFF,
    ;
    let product: u128 = per_second as u128 * delta as u128;
    let whole: u128 = product / 1_000_000_000_000u128;
    if whole > i32::MAX as u128 {
        i32::MAX
    } else {
        whole as i32
    }
}

/// Dropping the fraction leaves the largest whole number of world units that
/// the exact product of speed, tile size and time covers.
pub proof fn lemma_travelled_truncates(speed: nat, tile_size: nat, nanos: nat)
    ensures
        0 <= travelled(speed as int, tile_size as int, nanos as int),
        travelled(speed as int, tile_size as int, nanos as int) * 1_000_000_000_000 <= speed * tile_size * nanos,
        speed * tile_size * nanos < (travelled(speed as int, tile_size as int, nanos as int) + 1)
            * 1_000_000_000_000,
{
    assert(speed * tile_size * nanos >= 0) by (nonlinear_arith);
}

/// The distance of one frame of movement under a held key.
pub open spec fn manual_distance(speed: u32, delta: u64) -> int {
    capped(travelled(speed as int, TILE_SIZE as int, delta as int))
}

/// The whole world units that a body of speed `player_speed` covers in
/// `delta` nanoseconds on the grid.
pub fn get_manual_movement_speed(player_speed: u32, delta: u64) -> (distance: i32)
    ensures
        distance == manual_distance(player_speed, delta),
        distance >= 0,
{
    displacement(player_speed, TILE_SIZE, delta)
}

/// The single mover of the world: its speed in thousandths of a tile per
/// second, and what it is committed to.
#[derive(Clone, Copy, Debug, PartialEq, Eq, Structural)]
pub struct Player {
    pub speed: u32,
    pub movement_direction: MovementDirection,
}

impl Player {
    pub fn new(speed: u32, movement_direction: MovementDirection) -> (player: Self)
        ensures
            player == (Player { speed, movement_direction }),
    {
        Player { speed, movement_direction }
    }

    /// This mover with its commitment given up.
    pub open spec fn stopped(self) -> Player {
        Player { speed: self.speed, movement_direction: MovementDirection::Neutral }
    }

    /// This mover committed to `direction`.
    pub open spec fn committed(self, direction: MovementDirection) -> Player {
        Player { speed: self.speed, movement_direction: direction }
    }
}

/// What is left to the next grid line in the direction of travel. Going up
/// or right from a grid line it is a whole tile; going down or left it is
/// nothing.
pub open spec fn distance_to_tile(direction: MovementDirection, translation: Position) -> int {
    let tile = TILE_SIZE as int;
    match direction {
        MovementDirection::Up => tile - (translation.y as int) % tile,
        MovementDirection::Down => (translation.y as int) % tile,
        MovementDirection::Left => (translation.x as int) % tile,
        MovementDirection::Right => tile - (translation.x as int) % tile,
        MovementDirection::Neutral => 0,
    }
}

/// The distance of one frame of movement without a key: what the speed
/// allows, but never past the next grid line.
pub open spec fn auto_distance(player: Player, translation: Position, delta: u64) -> int {
    vstd::math::min(manual_distance(player.speed, delta), distance_to_tile(player.movement_direction, translation))
}

/// The mover after one frame of movement without a key: it stops when it
/// reaches the grid line.
pub open spec fn after_snap(player: Player, translation: Position, delta: u64) -> Player {
    if auto_distance(player, translation, delta) == distance_to_tile(player.movement_direction, translation) {
        player.stopped()
    } else {
        player
    }
}

/// The grid line at or below a coordinate.
pub open spec fn line_below(coordinate: int) -> int {
    coordinate - coordinate % (TILE_SIZE as int)
}

/// A frame of movement without a key never passes the next grid line, and
/// the mover gives its commitment up exactly when the frame brings it onto
/// that line. Going up or right the line is the first one above where the
/// mover stands; going down or left it is the one at or below.
pub proof fn lemma_auto_snap_never_overshoots(player: Player, translation: Position, delta: u64)
    ensures
        0 <= auto_distance(player, translation, delta) <= distance_to_tile(player.movement_direction, translation),
        0 <= distance_to_tile(player.movement_direction, translation) <= TILE_SIZE,
        after_snap(player, translation, delta).movement_direction == MovementDirection::Neutral
            <==> auto_distance(player, translation, delta) == distance_to_tile(
            player.movement_direction,
            translation,
        ),
        match player.movement_direction {
            MovementDirection::Up => translation.y + auto_distance(player, translation, delta) <= line_below(
                translation.y as int,
            ) + TILE_SIZE,
            MovementDirection::Right => translation.x + auto_distance(player, translation, delta) <= line_below(
                translation.x as int,
            ) + TILE_SIZE,
            MovementDirection::Down => translation.y - auto_distance(player, translation, delta) >= line_below(
                translation.y as int,
            ),
            MovementDirection::Left => translation.x - auto_distance(player, translation, delta) >= line_below(
                translation.x as int,
            ),
            MovementDirection::Neutral => auto_distance(player, translation, delta) == 0,
        },
{
    lemma_travelled_truncates(player.speed as nat, TILE_SIZE as nat, delta as nat);
}

/// The distance to the next grid line, read off the remainder that keeps the
/// sign of the coordinate: for a remainder of zero or more, going up or right
/// the rest of the tile and going down or left the remainder itself; for a
/// remainder below zero the other way round.
pub proof fn lemma_distance_by_signed_remainder(direction: MovementDirection, translation: Position)
    ensures
        ({
            let tile = TILE_SIZE as int;
            let coordinate = match direction {
                MovementDirection::Up | MovementDirection::Down => translation.y as int,
                _ => translation.x as int,
            };
            let signed = if coordinate >= 0 {
                coordinate % tile
            } else {
                -((-coordinate) % tile)
            };
            distance_to_tile(direction, translation) == match direction {
                MovementDirection::Up | MovementDirection::Right => if signed >= 0 {
                    tile - signed
                } else {
                    -signed
                },
                MovementDirection::Down | MovementDirection::Left => if signed >= 0 {
                    signed
                } else {
                    tile + signed
                },
                MovementDirection::Neutral => 0,
            }
        }),
{
}

/// The remainder of `coordinate` by the tile size, with the sign of the
/// coordinate, turned into the distance to the grid line ahead (`forward`:
/// up or right) or behind.
fn remaining(coordinate: i32, forward: bool) -> (distance: i32)
    ensures
        forward ==> distance == TILE_SIZE - (coordinate as int) % (TILE_SIZE as int),
        !forward ==> distance == (coordinate as int) % (TILE_SIZE as int),
        0 <= distance <= TILE_SIZE,
{
    let tile: i32 = TILE_SIZE as i32;
    let signed_distance: i32 = coordinate % tile;
    if forward {
        if signed_distance >= 0 {
            tile - signed_distance
        } else {
            -signed_distance
        }
    } else {
        if signed_distance >= 0 {
            signed_distance
        } else {
            tile + signed_distance
        }
    }
}

/// The distance that a committed mover travels in a frame without its key:
/// toward the next grid line and not past it. The mover gives its commitment
/// up when this brings it onto the line.
pub fn get_auto_movement_speed(translation: &Position, delta: &u64, player: &mut Player) -> (distance: i32)
    ensures
        distance == auto_distance(*old(player), *translation, *delta),
        *final(player) == after_snap(*old(player), *translation, *delta),
        0 <= distance <= distance_to_tile(old(player).movement_direction, *translation),
        distance == distance_to_tile(old(player).movement_direction, *translation)
            <==> final(player).movement_direction == MovementDirection::Neutral,
{
    let distance_to_tile: i32 = match player.movement_direction {
        MovementDirection::Up => remaining(translation.y, true),
        MovementDirection::Down => remaining(translation.y, false),
        MovementDirection::Left => remaining(translation.x, false),
        MovementDirection::Right => remaining(translation.x, true),
        MovementDirection::Neutral => 0,
    };
    let speed_scaled = get_manual_movement_speed(player.speed, *delta);
    let distance = if speed_scaled < distance_to_tile {
        speed_scaled
    } else {
        distance_to_tile
    };
    if distance == distance_to_tile {
        player.movement_direction = MovementDirection::Neutral;
    }
    distance
}

/// The direction that a key stands for under the bindings, the first of up,
/// down, left, right where it is bound to several; none for any other key.
pub open spec fn key_facing(key: KeyCode, bindings: KeyBindings) -> Option<FacingDirection> {
    if key == bindings.up {
        Some(FacingDirection::Up)
    } else if key == bindings.down {
        Some(FacingDirection::Down)
    } else if key == bindings.left {
        Some(FacingDirection::Left)
    } else if key == bindings.right {
        Some(FacingDirection::Right)
    } else {
        None
    }
}

/// Where the indicator is to point. A committed mover draws it to its
/// direction of travel. Under a mover at rest it follows the held direction
/// key, and stays as it is without one.
pub open spec fn indicator_target(
    movement: MovementDirection,
    facing: FacingDirection,
    key: Option<KeyCode>,
    bindings: KeyBindings,
) -> FacingDirection {
    match movement.as_facing() {
        Some(direction) => direction,
        None => match key {
            Some(pressed) => match key_facing(pressed, bindings) {
                Some(direction) => direction,
                None => facing,
            },
            None => facing,
        },
    }
}

/// Decides where the indicator points next and by how much it has to turn
/// to get there, from the mover's commitment, the indicator's facing and the
/// direction key that is held.
pub fn get_new_angle_and_facing_direction_for_pdi(
    player_movement_direction: MovementDirection,
    pdi_facing_direction: FacingDirection,
    key_pressed: KeyCode,
    key_bindings: &KeyBindings,
) -> (turn: (Rotation, FacingDirection))
    ensures
        turn.1 == indicator_target(
            player_movement_direction,
            pdi_facing_direction,
            Some(key_pressed),
            *key_bindings,
        ),
        turn.0 == Rotation::of_turns(turns_between(pdi_facing_direction, turn.1)),
{
    let new_facing_direction: FacingDirection = match player_movement_direction.to_facing() {
        Some(direction) => direction,
        None => {
            if key_pressed == key_bindings.up {
                FacingDirection::Up
            } else if key_pressed == key_bindings.down {
                FacingDirection::Down
            } else if key_pressed == key_bindings.left {
                FacingDirection::Left
            } else if key_pressed == key_bindings.right {
                FacingDirection::Right
            } else {
                pdi_facing_direction
            }
        },
    };
    let new_rotation_angle = rotation_between(pdi_facing_direction, new_facing_direction);
    (new_rotation_angle, new_facing_direction)
}

/// The mark on the mover that shows which way it faces. It keeps its facing
/// and the turn it has made in all since it pointed up.
#[derive(Clone, Copy, Debug, PartialEq, Eq, Structural)]
pub struct PlayerDirectionIndicator {
    pub facing_direction: FacingDirection,
    pub rotation: Rotation,
}

impl PlayerDirectionIndicator {
    /// The turn made in all is the one from pointing up to the facing.
    pub open spec fn wf(self) -> bool {
        self.rotation.quarter_turns() == self.facing_direction.heading()
    }

    /// Where the indicator stands when the mover stands at `player`.
    pub open spec fn place(self, player: Position) -> Position {
        ahead(player, self.facing_direction, INDICATOR_OFFSET as int)
    }

    /// The indicator as it is made with the mover: pointing up.
    pub open spec fn initial() -> PlayerDirectionIndicator {
        PlayerDirectionIndicator { facing_direction: FacingDirection::Up, rotation: Rotation::Zero }
    }

    /// The indicator turned to face `target`.
    pub open spec fn turned_to(self, target: FacingDirection) -> PlayerDirectionIndicator {
        PlayerDirectionIndicator {
            facing_direction: target,
            rotation: Rotation::of_turns(
                self.rotation.quarter_turns() + turns_between(self.facing_direction, target),
            ),
        }
    }

    /// The indicator after a frame under a mover committed to `movement`,
    /// with the held direction key `key`.
    pub open spec fn rotated(self, movement: MovementDirection, key: Option<KeyCode>, bindings: KeyBindings)
        -> PlayerDirectionIndicator {
        self.turned_to(indicator_target(movement, self.facing_direction, key, bindings))
    }

    /// Makes the indicator of a new mover: pointing up.
    pub fn new() -> (indicator: Self)
        ensures
            indicator == PlayerDirectionIndicator::initial(),
            indicator.wf(),
    {
        PlayerDirectionIndicator { facing_direction: FacingDirection::Up, rotation: Rotation::Zero }
    }

    pub fn facing_direction(&self) -> (facing: FacingDirection)
        ensures
            facing == self.facing_direction,
    {
        self.facing_direction
    }

    pub fn rotation(&self) -> (rotation: Rotation)
        ensures
            rotation == self.rotation,
    {
        self.rotation
    }

    /// The world position of the indicator of a mover at `player_translation`.
    pub fn translation(&self, player_translation: &Position) -> (position: Position)
        ensures
            position == self.place(*player_translation),
    {
        step_ahead(*player_translation, self.facing_direction, INDICATOR_OFFSET)
    }

    /// Turning keeps the turn made in all in step with the facing.
    pub proof fn lemma_turned_to_wf(self, target: FacingDirection)
        requires
            self.wf(),
        ensures
            self.turned_to(target).wf(),
    {
    }
}

/// Turns the indicator for this frame and returns the turn applied to it. A
/// committed mover draws the indicator to its direction of travel; under a
/// mover at rest the held direction key does; otherwise nothing changes.
pub fn rotate_player_direction_indicator(
    indicator: &mut PlayerDirectionIndicator,
    player: &Player,
    keys: &Controls,
    key_bindings: &KeyBindings,
) -> (applied: Rotation)
    ensures
        *final(indicator) == old(indicator).rotated(
            player.movement_direction,
            keys.active_key(*key_bindings),
            *key_bindings,
        ),
        applied == Rotation::of_turns(
            turns_between(old(indicator).facing_direction, final(indicator).facing_direction),
        ),
        old(indicator).wf() ==> final(indicator).wf(),
{
    let (rotation_angle, new_facing_direction) = match keys.held_key(key_bindings) {
        Some(key_pressed) => get_new_angle_and_facing_direction_for_pdi(
            player.movement_direction,
            indicator.facing_direction,
            key_pressed,
            key_bindings,
        ),
        None => match player.movement_direction.to_facing() {
            Some(direction) => (rotation_between(indicator.facing_direction, direction), direction),
            None => (Rotation::Zero, indicator.facing_direction),
        },
    };
    indicator.facing_direction = new_facing_direction;
    indicator.rotation = indicator.rotation.then_turn(rotation_angle);
    rotation_angle
}

/// The direction that the mover takes under the held keys: the first held
/// key of up, down, left, right whose direction the mover is free to take,
/// that is, the one it is committed to already, or any if it is at rest.
pub open spec fn manual_direction(keys: Controls, committed: MovementDirection) -> Option<FacingDirection> {
    if keys.up && (committed == MovementDirection::Neutral || committed == MovementDirection::Up) {
        Some(FacingDirection::Up)
    } else if keys.down && (committed == MovementDirection::Neutral || committed == MovementDirection::Down) {
        Some(FacingDirection::Down)
    } else if keys.left && (committed == MovementDirection::Neutral || committed == MovementDirection::Left) {
        Some(FacingDirection::Left)
    } else if keys.right && (committed == MovementDirection::Neutral || committed == MovementDirection::Right) {
        Some(FacingDirection::Right)
    } else {
        None
    }
}

/// A position moved `distance` in a direction of travel; unmoved for
/// `Neutral`.
pub open spec fn travel(translation: Position, direction: MovementDirection, distance: int) -> Position {
    match direction.as_facing() {
        Some(facing) => ahead(translation, facing, distance),
        None => translation,
    }
}

/// What the mover would do in this frame if nothing stood in its way: its
/// next state and the position it heads for.
pub open spec fn intended(player: Player, translation: Position, keys: Controls, delta: u64) -> (Player, Position) {
    match manual_direction(keys, player.movement_direction) {
        Some(facing) => (
            player.committed(facing.as_movement()),
            ahead(translation, facing, manual_distance(player.speed, delta)),
        ),
        None => (
            after_snap(player, translation, delta),
            travel(translation, player.movement_direction, auto_distance(player, translation, delta)),
        ),
    }
}

/// The mover and its position after one frame. While the hookshot is out
/// nothing changes. Otherwise the mover takes the position it heads for,
/// unless its tile-sized box would there hit an obstacle: then it stays
/// where it is and gives its commitment up.
pub open spec fn moved(
    player: Player,
    translation: Position,
    entity: u32,
    collidables: Seq<(Position, u32)>,
    keys: Controls,
    delta: u64,
    hookshot_firing: bool,
) -> (Player, Position) {
    if hookshot_firing {
        (player, translation)
    } else {
        let (next, target) = intended(player, translation, keys, delta);
        if any_hit(target, entity, collidables, tile_box()) {
            (next.stopped(), translation)
        } else {
            (next, target)
        }
    }
}

/// A committed mover keeps to its direction: whatever keys are held, it
/// heads on along its direction of travel or stops, and leaves the other
/// axis alone. A key of another direction is not followed.
pub proof fn lemma_commitment_holds(player: Player, translation: Position, keys: Controls, delta: u64)
    requires
        player.movement_direction != MovementDirection::Neutral,
    ensures
        ({
            let (next, target) = intended(player, translation, keys, delta);
            &&& next.movement_direction == player.movement_direction || next.movement_direction
                == MovementDirection::Neutral
            &&& match player.movement_direction {
                MovementDirection::Up => target.x == translation.x && target.y >= translation.y,
                MovementDirection::Down => target.x == translation.x && target.y <= translation.y,
                MovementDirection::Left => target.y == translation.y && target.x <= translation.x,
                MovementDirection::Right => target.y == translation.y && target.x >= translation.x,
                MovementDirection::Neutral => true,
            }
        }),
{
    lemma_travelled_truncates(player.speed as nat, TILE_SIZE as nat, delta as nat);
    lemma_auto_snap_never_overshoots(player, translation, delta);
}

/// A mover at rest with no direction key held stays where it is, at rest.
pub proof fn lemma_rest_without_keys(player: Player, translation: Position, keys: Controls, delta: u64)
    requires
        player.movement_direction == MovementDirection::Neutral,
        !keys.up && !keys.down && !keys.left && !keys.right,
    ensures
        intended(player, translation, keys, delta) == (player, translation),
{
}

/// While the hookshot is out the mover does not move and keeps its state,
/// whatever keys are held and whatever stands around it.
pub proof fn lemma_held_by_hookshot(
    player: Player,
    translation: Position,
    entity: u32,
    collidables: Seq<(Position, u32)>,
    keys: Controls,
    delta: u64,
)
    ensures
        moved(player, translation, entity, collidables, keys, delta, true) == (player, translation),
{
}

/// A mover that is stopped by an obstacle stays where it is and is at rest
/// afterwards; one that is not stopped takes the position it headed for.
pub proof fn lemma_blocked_or_moved(
    player: Player,
    translation: Position,
    entity: u32,
    collidables: Seq<(Position, u32)>,
    keys: Controls,
    delta: u64,
)
    ensures
        ({
            let (next, target) = intended(player, translation, keys, delta);
            let after = moved(player, translation, entity, collidables, keys, delta, false);
            if any_hit(target, entity, collidables, tile_box()) {
                after.1 == translation && after.0.movement_direction == MovementDirection::Neutral
            } else {
                after == (next, target)
            }
        }),
{
}

fn step_in(translation: Position, direction: MovementDirection, distance: i32) -> (target: Position)
    ensures
        target == travel(translation, direction, distance as int),
{
    match direction.to_facing() {
        Some(facing) => step_ahead(translation, facing, distance),
        None => translation,
    }
}

/// Moves the mover for one frame: by the held direction key if it is free to
/// follow it, else on toward the next grid line. An obstacle in the way
/// stops it, and so does a hookshot that is out.
pub fn player_movement(
    player: &mut Player,
    translation: &mut Position,
    entity: u32,
    collidables: &[(Position, u32)],
    keys: &Controls,
    delta: u64,
    hookshot_firing: bool,
)
    ensures
        (*final(player), *final(translation)) == moved(
            *old(player),
            *old(translation),
            entity,
            collidables@,
            *keys,
            delta,
            hookshot_firing,
        ),
        hookshot_firing ==> *final(translation) == *old(translation) && *final(player) == *old(player),
        final(player).speed == old(player).speed,
{
    if hookshot_firing {
        return ;
    }
    let committed = player.movement_direction;
    let target: Position;
    if keys.up && (committed == MovementDirection::Neutral || committed == MovementDirection::Up) {
        let distance = get_manual_movement_speed(player.speed, delta);
        target = step_ahead(*translation, FacingDirection::Up, distance);
        player.movement_direction = MovementDirection::Up;
    } else if keys.down && (committed == MovementDirection::Neutral || committed == MovementDirection::Down) {
        let distance = get_manual_movement_speed(player.speed, delta);
        target = step_ahead(*translation, FacingDirection::Down, distance);
        player.movement_direction = MovementDirection::Down;
    } else if keys.left && (committed == MovementDirection::Neutral || committed == MovementDirection::Left) {
        let distance = get_manual_movement_speed(player.speed, delta);
        target = step_ahead(*translation, FacingDirection::Left, distance);
        player.movement_direction = MovementDirection::Left;
    } else if keys.right && (committed == MovementDirection::Neutral || committed == MovementDirection::Right) {
        let distance = get_manual_movement_speed(player.speed, delta);
        target = step_ahead(*translation, FacingDirection::Right, distance);
        player.movement_direction = MovementDirection::Right;
    } else {
        let distance = get_auto_movement_speed(translation, &delta, player);
        target = step_in(*translation, committed, distance);
    }
    let tile = Size { width: TILE_SIZE, height: TILE_SIZE };
    if check_collision(&target, &entity, collidables, tile).is_none() {
        *translation = target;
    } else {
        player.movement_direction = MovementDirection::Neutral;
    }
}

/// The speed at which the camera catches up: a tenth above the mover's.
pub open spec fn catch_up_speed(speed: u32) -> int {
    let faster = speed * 11 / 10;
    if faster > u32::MAX {
        u32::MAX as int
    } else {
        faster
    }
}

/// How far the camera lags behind the mover on the axis of `direction`.
pub open spec fn camera_lag(camera: Position, player: Position, direction: MovementDirection) -> int {
    match direction {
        MovementDirection::Up | MovementDirection::Down => vstd::math::abs(camera.y - player.y) as int,
        MovementDirection::Left | MovementDirection::Right => vstd::math::abs(camera.x - player.x) as int,
        MovementDirection::Neutral => 0,
    }
}

/// The camera after one frame. It follows a committed mover in the mover's
/// direction of travel once it lags more than the dead zone behind on that
/// axis, and rests otherwise.
pub open spec fn camera_after(player_translation: Position, player: Player, camera: Position, delta: u64) -> Position {
    if camera_lag(camera, player_translation, player.movement_direction) > CAMERA_DEAD_ZONE {
        travel(
            camera,
            player.movement_direction,
            capped(travelled(catch_up_speed(player.speed), TILE_SIZE as int, delta as int)),
        )
    } else {
        camera
    }
}

fn lag(camera: i32, player: i32) -> (distance: i64)
    ensures
        distance == vstd::math::abs(camera - player),
{
    let d: i64 = camera as i64 - player as i64;
    if d < 0 {
        -d
    } else {
        d
    }
}

/// Lets the camera follow the mover for one frame.
pub fn camera_follow(player_translation: &Position, player: &Player, camera_translation: &mut Position, delta: u64)
    ensures
        *final(camera_translation) == camera_after(*player_translation, *player, *old(camera_translation), delta),
{
    let delta_x = lag(camera_translation.x, player_translation.x);
    let delta_y = lag(camera_translation.y, player_translation.y);
    let behind = match player.movement_direction {
        MovementDirection::Up | MovementDirection::Down => delta_y > CAMERA_DEAD_ZONE as i64,
        MovementDirection::Left | MovementDirection::Right => delta_x > CAMERA_DEAD_ZONE as i64,
        MovementDirection::Neutral => false,
    };
    if behind {
        let faster: u64 = player.speed as u64 * 11 / 10;
        let speed: u32 = if faster > u32::MAX as u64 {
            u32::MAX
        } else {
            faster as u32
        };
        let distance = get_manual_movement_speed(speed, delta);
        *camera_translation = step_in(*camera_translation, player.movement_direction, distance);
    }
}

/// Sends the interaction event of this frame, if the interact key went down:
/// it carries the indicator's position and facing.
pub fn interact(interact_pressed: bool, pdi_translation: &Position, facing_direction: &FacingDirection) -> (sent:
    Option<InteractionEvent>)
    ensures
        sent == if interact_pressed {
            Some(InteractionEvent::carrying(*pdi_translation, *facing_direction))
        } else {
            None
        },
{
    if interact_pressed {
        Some(InteractionEvent::new(*pdi_translation, *facing_direction))
    } else {
        None
    }
}

} // verus!
