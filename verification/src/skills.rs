//! Projectiles: fired when the cooldown allows, flying straight, gone when
//! they hit an obstacle or leave the screen.

use vstd::prelude::*;
use crate::attacks::{fly, flown, footprint, footprint_along, muzzle, spawn_point};
use crate::collisions::{any_hit, check_collision};
use crate::cooldown::Cooldown;
use crate::direction::FacingDirection;
use crate::general_systems::{off_screen, out_of_bounds};
use crate::geometry::{Position, Size};
use crate::selection::{lemma_select_empty, lemma_select_push};

verus! {

/// The time between two projectiles, in nanoseconds: half a second.
pub const PROJECTILE_COOLDOWN: u64 = 500_000_000;

/// The speed of a projectile, in thousandths of a tile per second.
pub const PROJECTILE_SPEED: u32 = 6000;

/// The extent of a projectile along its flight: half a tile.
pub const PROJECTILE_LENGTH: u32 = 50;

/// The extent of a projectile across its flight: a tenth of a tile.
pub const PROJECTILE_WIDTH: u32 = 10;

/// A projectile in flight: the way it flies and its speed in thousandths of
/// a tile per second. Neither changes after the shot.
#[derive(Clone, Copy, Debug, PartialEq, Eq, Structural)]
pub struct Projectile {
    pub facing_direction: FacingDirection,
    pub speed: u32,
}

impl Projectile {
    pub fn new(facing_direction: FacingDirection, speed: u32) -> (projectile: Self)
        ensures
            projectile == (Projectile { facing_direction, speed }),
    {
        Self { facing_direction, speed }
    }

    pub fn facing_direction(&self) -> (facing: FacingDirection)
        ensures
            facing == self.facing_direction,
    {
        self.facing_direction
    }

    pub fn speed(&self) -> (speed: u32)
        ensures
            speed == self.speed,
    {
        self.speed
    }

    /// The footprint of the projectile: long the way it flies, narrow across.
    pub open spec fn extent(self) -> Size {
        footprint_along(self.facing_direction, PROJECTILE_LENGTH, PROJECTILE_WIDTH)
    }

    /// The footprint of the projectile.
    pub fn size(&self) -> (size: Size)
        ensures
            size == self.extent(),
    {
        footprint(self.facing_direction, PROJECTILE_LENGTH, PROJECTILE_WIDTH)
    }
}

/// The one timer that gates all projectiles.
#[derive(Clone, Copy, Debug, PartialEq, Eq, Structural)]
pub struct ProjectileCooldown(pub Cooldown);

impl Default for ProjectileCooldown {
    fn default() -> (cooldown: Self)
        ensures
            cooldown.0 == Cooldown::fresh(PROJECTILE_COOLDOWN),
    {
        Self(Cooldown::new(PROJECTILE_COOLDOWN))
    }
}

/// Runs the timer out at the start of the world, so that the first
/// projectile need not wait.
pub fn projectile_cooldown_init(cooldown_timer: &mut ProjectileCooldown)
    ensures
        final(cooldown_timer).0 == old(cooldown_timer).0.ticked(1_000_000_000),
        old(cooldown_timer).0.duration <= 1_000_000_000 ==> final(cooldown_timer).0.finished,
{
    cooldown_timer.0.tick(1_000_000_000);
}

/// The projectile that a shot in the given direction lets fly.
pub open spec fn projectile_shot(facing_direction: FacingDirection) -> Projectile {
    Projectile { facing_direction, speed: PROJECTILE_SPEED }
}

/// Whether a fire key press in this frame, `delta` nanoseconds after the
/// last, lets a projectile fly: the timer has to be finished by then.
pub open spec fn projectile_fires(cooldown: ProjectileCooldown, fire_pressed: bool, delta: u64) -> bool {
    fire_pressed && cooldown.0.ticked(delta).finished
}

/// The timer after a frame: it has run on by `delta`, and starts anew if a
/// projectile was fired.
pub open spec fn projectile_cooldown_after(cooldown: ProjectileCooldown, fire_pressed: bool, delta: u64)
    -> ProjectileCooldown {
    if projectile_fires(cooldown, fire_pressed, delta) {
        ProjectileCooldown(cooldown.0.ticked(delta).restarted())
    } else {
        ProjectileCooldown(cooldown.0.ticked(delta))
    }
}

/// The timer gates the projectiles. A fire key press before the timer is
/// finished lets no projectile fly. A shot leaves the timer unfinished, so
/// that a second press within less than the duration is refused; once the
/// duration has passed since the shot, in however many frames and with or
/// without refused presses in them, the next press lets a projectile fly
/// again.
pub proof fn lemma_cooldown_gates_projectiles(
    cooldown: ProjectileCooldown,
    first: u64,
    second: u64,
    third: u64,
    pressed: bool,
)
    requires
        projectile_fires(cooldown, true, first),
    ensures
        forall|timer: ProjectileCooldown, press: bool, delta: u64|
            !timer.0.ticked(delta).finished ==> !#[trigger] projectile_fires(timer, press, delta),
        !projectile_cooldown_after(cooldown, true, first).0.finished,
        second < cooldown.0.duration ==> !projectile_fires(
            projectile_cooldown_after(cooldown, true, first),
            true,
            second,
        ),
        second < cooldown.0.duration && second + third >= cooldown.0.duration ==> projectile_fires(
            projectile_cooldown_after(projectile_cooldown_after(cooldown, true, first), pressed, second),
            true,
            third,
        ),
{
}

/// Lets the timer run on by `delta` and fires a projectile if the fire key
/// went down and the timer is finished. The projectile starts half a tile
/// ahead of the indicator and flies the way the indicator faces; firing
/// starts the timer anew.
pub fn fire_projectile(
    projectile_cooldown: &mut ProjectileCooldown,
    fire_pressed: bool,
    delta: u64,
    pdi_translation: &Position,
    facing_direction: &FacingDirection,
) -> (spawned: Option<(Position, Projectile)>)
    ensures
        *final(projectile_cooldown) == projectile_cooldown_after(*old(projectile_cooldown), fire_pressed, delta),
        spawned == if projectile_fires(*old(projectile_cooldown), fire_pressed, delta) {
            Some((muzzle(*pdi_translation, *facing_direction), projectile_shot(*facing_direction)))
        } else {
            None
        },
{
    projectile_cooldown.0.tick(delta);
    if projectile_cooldown.0.finished() && fire_pressed {
        let start = spawn_point(pdi_translation, *facing_direction);
        projectile_cooldown.0.reset();
        Some((start, Projectile::new(*facing_direction, PROJECTILE_SPEED)))
    } else {
        None
    }
}

/// A projectile with its position and identity after `delta` nanoseconds of
/// flight.
pub open spec fn projectile_flown(projectile: (Position, u32, Projectile), delta: u64) -> (Position, u32, Projectile) {
    (flown(projectile.0, projectile.2.facing_direction, projectile.2.speed, delta), projectile.1, projectile.2)
}

/// Moves every projectile by one frame of flight.
pub fn projectile_move(projectiles: &mut Vec<(Position, u32, Projectile)>, delta: u64)
    ensures
        final(projectiles)@ == old(projectiles)@.map_values(
            |projectile: (Position, u32, Projectile)| projectile_flown(projectile, delta),
        ),
{
    let mut i: usize = 0;
    while i < projectiles.len()
        invariant
            i <= projectiles.len(),
            projectiles@.len() == old(projectiles)@.len(),
            forall|j: int| 0 <= j < i ==> projectiles@[j] == projectile_flown(old(projectiles)@[j], delta),
            forall|j: int| i <= j < projectiles@.len() ==> projectiles@[j] == old(projectiles)@[j],
        decreases projectiles.len() - i,
    {
        let (translation, entity, projectile) = projectiles[i];
        let next = fly(translation, projectile.facing_direction(), projectile.speed(), delta);
        projectiles.set(i, (next, entity, projectile));
        i += 1;
    }
    assert(projectiles@ =~= old(projectiles)@.map_values(
        |projectile: (Position, u32, Projectile)| projectile_flown(projectile, delta),
    ));
}

/// The identities of the projectiles that hit an obstacle, in the order of
/// the projectiles.
pub open spec fn projectiles_stopped(
    projectiles: Seq<(Position, u32, Projectile)>,
    collidables: Seq<(Position, u32)>,
) -> Seq<u32> {
    projectiles.filter(
        |projectile: (Position, u32, Projectile)|
            any_hit(projectile.0, projectile.1, collidables, projectile.2.extent()),
    ).map_values(|projectile: (Position, u32, Projectile)| projectile.1)
}

/// Finds the projectiles that have hit an obstacle and returns their
/// identities: they are to be removed.
pub fn manage_projectile_collisions(
    projectiles: &[(Position, u32, Projectile)],
    collidables: &[(Position, u32)],
) -> (despawned: Vec<u32>)
    ensures
        despawned@ == projectiles_stopped(projectiles@, collidables@),
{
    let ghost keep = |projectile: (Position, u32, Projectile)|
        any_hit(projectile.0, projectile.1, collidables@, projectile.2.extent());
    let ghost id = |projectile: (Position, u32, Projectile)| projectile.1;
    let mut despawned: Vec<u32> = Vec::new();
    let mut i: usize = 0;
    proof {
        lemma_select_empty(keep, id);
        assert(projectiles@.take(0) =~= Seq::empty());
    }
    while i < projectiles.len()
        invariant
            i <= projectiles.len(),
            keep == |projectile: (Position, u32, Projectile)|
                any_hit(projectile.0, projectile.1, collidables@, projectile.2.extent()),
            id == |projectile: (Position, u32, Projectile)| projectile.1,
            despawned@ == projectiles@.take(i as int).filter(keep).map_values(id),
        decreases projectiles.len() - i,
    {
        let (translation, entity, projectile) = projectiles[i];
        proof {
            lemma_select_push(projectiles@.take(i as int), projectiles@[i as int], keep, id);
            assert(projectiles@.take(i as int + 1) =~= projectiles@.take(i as int).push(projectiles@[i as int]));
        }
        if check_collision(&translation, &entity, collidables, projectile.size()).is_some() {
            despawned.push(entity);
        }
        i += 1;
    }
    proof {
        assert(projectiles@.take(projectiles@.len() as int) =~= projectiles@);
    }
    despawned
}

/// The identities of the projectiles that are off the screen of a camera at
/// `camera`, in the order of the projectiles.
pub open spec fn projectiles_off_screen(camera: Position, projectiles: Seq<(Position, u32, Projectile)>) -> Seq<u32> {
    projectiles.filter(
        |projectile: (Position, u32, Projectile)|
            off_screen(camera.x as int, camera.y as int, projectile.0.x as int, projectile.0.y as int),
    ).map_values(|projectile: (Position, u32, Projectile)| projectile.1)
}

/// Finds the projectiles that have left the screen and returns their
/// identities: they are to be removed.
pub fn despawn_offscreen_projectiles(
    camera_translation: &Position,
    projectiles: &[(Position, u32, Projectile)],
) -> (despawned: Vec<u32>)
    ensures
        despawned@ == projectiles_off_screen(*camera_translation, projectiles@),
{
    let camera_x = camera_translation.x;
    let camera_y = camera_translation.y;
    let ghost keep = |projectile: (Position, u32, Projectile)|
        off_screen(camera_x as int, camera_y as int, projectile.0.x as int, projectile.0.y as int);
    let ghost id = |projectile: (Position, u32, Projectile)| projectile.1;
    let mut despawned: Vec<u32> = Vec::new();
    let mut i: usize = 0;
    proof {
        lemma_select_empty(keep, id);
        assert(projectiles@.take(0) =~= Seq::empty());
    }
    while i < projectiles.len()
        invariant
            i <= projectiles.len(),
            keep == |projectile: (Position, u32, Projectile)|
                off_screen(camera_x as int, camera_y as int, projectile.0.x as int, projectile.0.y as int),
            id == |projectile: (Position, u32, Projectile)| projectile.1,
            despawned@ == projectiles@.take(i as int).filter(keep).map_values(id),
        decreases projectiles.len() - i,
    {
        let (translation, entity, _) = projectiles[i];
        proof {
            lemma_select_push(projectiles@.take(i as int), projectiles@[i as int], keep, id);
            assert(projectiles@.take(i as int + 1) =~= projectiles@.take(i as int).push(projectiles@[i as int]));
        }
        if out_of_bounds(camera_x, camera_y, translation.x, translation.y) {
            despawned.push(entity);
        }
        i += 1;
    }
    proof {
        assert(projectiles@.take(projectiles@.len() as int) =~= projectiles@);
    }
    despawned
}

} // verus!
