//! Arrows: fired when the cooldown allows, flying straight, gone when they
//! hit an obstacle or leave the screen.

use vstd::prelude::*;
use crate::attacks::{fly, flown, footprint, footprint_along, muzzle, spawn_point};
use crate::collisions::{any_hit, check_collision};
use crate::cooldown::Cooldown;
use crate::direction::FacingDirection;
use crate::general_systems::{off_screen, out_of_bounds};
use crate::geometry::{Position, Size};
use crate::selection::{lemma_select_empty, lemma_select_push};

verus! {

/// The time between two arrows, in nanoseconds: half a second.
pub const ARROW_COOLDOWN: u64 = 500_000_000;

/// The speed of an arrow, in thousandths of a tile per second.
pub const ARROW_SPEED: u32 = 7500;

/// The extent of an arrow along its flight: half a tile.
pub const ARROW_LENGTH: u32 = 50;

/// The extent of an arrow across its flight: a tenth of a tile.
pub const ARROW_WIDTH: u32 = 10;

/// An arrow in flight: the way it flies, its speed in thousandths of a tile
/// per second, and its footprint. None of them changes after the shot.
#[derive(Clone, Copy, Debug, PartialEq, Eq, Structural)]
pub struct Arrow {
    pub facing_direction: FacingDirection,
    pub speed: u32,
    pub size: Size,
}

impl Arrow {
    pub fn new(facing_direction: FacingDirection, speed: u32, size: Size) -> (arrow: Self)
        ensures
            arrow == (Arrow { facing_direction, speed, size }),
    {
        Self { facing_direction, speed, size }
    }

    pub fn facing_direction(&self) -> (facing: FacingDirection)
        ensures
            facing == self.facing_direction,
    {
        self.facing_direction
    }

    pub fn speed(&self) -> (speed: u32)
        ensures
            speed == self.speed,
    {
        self.speed
    }
}

/// The one timer that gates all arrows.
#[derive(Clone, Copy, Debug, PartialEq, Eq, Structural)]
pub struct ArrowCooldown(pub Cooldown);

impl Default for ArrowCooldown {
    fn default() -> (cooldown: Self)
        ensures
            cooldown.0 == Cooldown::fresh(ARROW_COOLDOWN),
    {
        Self(Cooldown::new(ARROW_COOLDOWN))
    }
}

/// Runs the timer out at the start of the world, so that the first arrow
/// need not wait.
pub fn arrow_cooldown_init(cooldown_timer: &mut ArrowCooldown)
    ensures
        final(cooldown_timer).0 == old(cooldown_timer).0.ticked(1_000_000_000),
        old(cooldown_timer).0.duration <= 1_000_000_000 ==> final(cooldown_timer).0.finished,
{
    cooldown_timer.0.tick(1_000_000_000);
}

/// The arrow that a shot in the given direction lets fly.
pub open spec fn arrow_shot(facing_direction: FacingDirection) -> Arrow {
    Arrow {
        facing_direction,
        speed: ARROW_SPEED,
        size: footprint_along(facing_direction, ARROW_LENGTH, ARROW_WIDTH),
    }
}

/// Whether a fire key press in this frame, `delta` nanoseconds after the
/// last, lets an arrow fly: the timer has to be finished by then.
pub open spec fn arrow_fires(cooldown: ArrowCooldown, fire_pressed: bool, delta: u64) -> bool {
    fire_pressed && cooldown.0.ticked(delta).finished
}

/// The timer after a frame: it has run on by `delta`, and starts anew if an
/// arrow was fired.
pub open spec fn arrow_cooldown_after(cooldown: ArrowCooldown, fire_pressed: bool, delta: u64) -> ArrowCooldown {
    if arrow_fires(cooldown, fire_pressed, delta) {
        ArrowCooldown(cooldown.0.ticked(delta).restarted())
    } else {
        ArrowCooldown(cooldown.0.ticked(delta))
    }
}

/// The timer gates the arrows. A fire key press before the timer is finished
/// lets no arrow fly. A shot leaves the timer unfinished, so that a second
/// press within less than the duration is refused; once the duration has
/// passed since the shot, in however many frames and with or without refused
/// presses in them, the next press lets an arrow fly again.
pub proof fn lemma_cooldown_gates_arrows(cooldown: ArrowCooldown, first: u64, second: u64, third: u64, pressed: bool)
    requires
        arrow_fires(cooldown, true, first),
    ensures
        forall|timer: ArrowCooldown, press: bool, delta: u64|
            !timer.0.ticked(delta).finished ==> !#[trigger] arrow_fires(timer, press, delta),
        !arrow_cooldown_after(cooldown, true, first).0.finished,
        second < cooldown.0.duration ==> !arrow_fires(arrow_cooldown_after(cooldown, true, first), true, second),
        second < cooldown.0.duration && second + third >= cooldown.0.duration ==> arrow_fires(
            arrow_cooldown_after(arrow_cooldown_after(cooldown, true, first), pressed, second),
            true,
            third,
        ),
{
}

/// Lets the timer run on by `delta` and fires an arrow if the fire key went
/// down and the timer is finished. The arrow starts half a tile ahead of the
/// indicator and flies the way the indicator faces; firing starts the timer
/// anew.
pub fn fire_arrow(
    arrow_cooldown: &mut ArrowCooldown,
    fire_pressed: bool,
    delta: u64,
    pdi_translation: &Position,
    facing_direction: &FacingDirection,
) -> (spawned: Option<(Position, Arrow)>)
    ensures
        *final(arrow_cooldown) == arrow_cooldown_after(*old(arrow_cooldown), fire_pressed, delta),
        spawned == if arrow_fires(*old(arrow_cooldown), fire_pressed, delta) {
            Some((muzzle(*pdi_translation, *facing_direction), arrow_shot(*facing_direction)))
        } else {
            None
        },
{
    arrow_cooldown.0.tick(delta);
    if arrow_cooldown.0.finished() && fire_pressed {
        let start = spawn_point(pdi_translation, *facing_direction);
        let size = footprint(*facing_direction, ARROW_LENGTH, ARROW_WIDTH);
        arrow_cooldown.0.reset();
        Some((start, Arrow::new(*facing_direction, ARROW_SPEED, size)))
    } else {
        None
    }
}

/// An arrow with its position and identity after `delta` nanoseconds of
/// flight.
pub open spec fn arrow_flown(arrow: (Position, u32, Arrow), delta: u64) -> (Position, u32, Arrow) {
    (flown(arrow.0, arrow.2.facing_direction, arrow.2.speed, delta), arrow.1, arrow.2)
}

/// Moves every arrow by one frame of flight.
pub fn arrow_move(arrows: &mut Vec<(Position, u32, Arrow)>, delta: u64)
    ensures
        final(arrows)@ == old(arrows)@.map_values(|arrow: (Position, u32, Arrow)| arrow_flown(arrow, delta)),
{
    let mut i: usize = 0;
    while i < arrows.len()
        invariant
            i <= arrows.len(),
            arrows@.len() == old(arrows)@.len(),
            forall|j: int| 0 <= j < i ==> arrows@[j] == arrow_flown(old(arrows)@[j], delta),
            forall|j: int| i <= j < arrows@.len() ==> arrows@[j] == old(arrows)@[j],
        decreases arrows.len() - i,
    {
        let (translation, entity, arrow) = arrows[i];
        let next = fly(translation, arrow.facing_direction(), arrow.speed(), delta);
        arrows.set(i, (next, entity, arrow));
        i += 1;
    }
    assert(arrows@ =~= old(arrows)@.map_values(|arrow: (Position, u32, Arrow)| arrow_flown(arrow, delta)));
}

/// The identities of the arrows that hit an obstacle, in the order of the
/// arrows.
pub open spec fn arrows_stopped(arrows: Seq<(Position, u32, Arrow)>, collidables: Seq<(Position, u32)>) -> Seq<u32> {
    arrows.filter(|arrow: (Position, u32, Arrow)| any_hit(arrow.0, arrow.1, collidables, arrow.2.size)).map_values(
        |arrow: (Position, u32, Arrow)| arrow.1,
    )
}

/// Finds the arrows that have hit an obstacle and returns their identities:
/// they are to be removed.
pub fn manage_arrow_collisions(arrows: &[(Position, u32, Arrow)], collidables: &[(Position, u32)]) -> (despawned:
    Vec<u32>)
    ensures
        despawned@ == arrows_stopped(arrows@, collidables@),
{
    let ghost keep = |arrow: (Position, u32, Arrow)| any_hit(arrow.0, arrow.1, collidables@, arrow.2.size);
    let ghost id = |arrow: (Position, u32, Arrow)| arrow.1;
    let mut despawned: Vec<u32> = Vec::new();
    let mut i: usize = 0;
    proof {
        lemma_select_empty(keep, id);
        assert(arrows@.take(0) =~= Seq::empty());
    }
    while i < arrows.len()
        invariant
            i <= arrows.len(),
            keep == |arrow: (Position, u32, Arrow)| any_hit(arrow.0, arrow.1, collidables@, arrow.2.size),
            id == |arrow: (Position, u32, Arrow)| arrow.1,
            despawned@ == arrows@.take(i as int).filter(keep).map_values(id),
        decreases arrows.len() - i,
    {
        let (arrow_translation, arrow_entity, arrow) = arrows[i];
        proof {
            lemma_select_push(arrows@.take(i as int), arrows@[i as int], keep, id);
            assert(arrows@.take(i as int + 1) =~= arrows@.take(i as int).push(arrows@[i as int]));
        }
        if check_collision(&arrow_translation, &arrow_entity, collidables, arrow.size).is_some() {
            despawned.push(arrow_entity);
        }
        i += 1;
    }
    proof {
        assert(arrows@.take(arrows@.len() as int) =~= arrows@);
    }
    despawned
}

/// The identities of the arrows that are off the screen of a camera at
/// `camera`, in the order of the arrows.
pub open spec fn arrows_off_screen(camera: Position, arrows: Seq<(Position, u32, Arrow)>) -> Seq<u32> {
    arrows.filter(
        |arrow: (Position, u32, Arrow)| off_screen(camera.x as int, camera.y as int, arrow.0.x as int, arrow.0.y as int),
    ).map_values(|arrow: (Position, u32, Arrow)| arrow.1)
}

/// Finds the arrows that have left the screen and returns their identities:
/// they are to be removed.
pub fn despawn_offscreen_arrows(camera_translation: &Position, arrows: &[(Position, u32, Arrow)]) -> (despawned: Vec<
    u32,
>)
    ensures
        despawned@ == arrows_off_screen(*camera_translation, arrows@),
{
    let camera_x = camera_translation.x;
    let camera_y = camera_translation.y;
    let ghost keep = |arrow: (Position, u32, Arrow)|
        off_screen(camera_x as int, camera_y as int, arrow.0.x as int, arrow.0.y as int);
    let ghost id = |arrow: (Position, u32, Arrow)| arrow.1;
    let mut despawned: Vec<u32> = Vec::new();
    let mut i: usize = 0;
    proof {
        lemma_select_empty(keep, id);
        assert(arrows@.take(0) =~= Seq::empty());
    }
    while i < arrows.len()
        invariant
            i <= arrows.len(),
            keep == |arrow: (Position, u32, Arrow)|
                off_screen(camera_x as int, camera_y as int, arrow.0.x as int, arrow.0.y as int),
            id == |arrow: (Position, u32, Arrow)| arrow.1,
            despawned@ == arrows@.take(i as int).filter(keep).map_values(id),
        decreases arrows.len() - i,
    {
        let (arrow_translation, arrow_entity, _) = arrows[i];
        proof {
            lemma_select_push(arrows@.take(i as int), arrows@[i as int], keep, id);
            assert(arrows@.take(i as int + 1) =~= arrows@.take(i as int).push(arrows@[i as int]));
        }
        if out_of_bounds(camera_x, camera_y, arrow_translation.x, arrow_translation.y) {
            despawned.push(arrow_entity);
        }
        i += 1;
    }
    proof {
        assert(arrows@.take(arrows@.len() as int) =~= arrows@);
    }
    despawned
}

} // verus!
