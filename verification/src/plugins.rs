//! One frame of the world: the systems in their fixed order, grouped as the
//! plugins that own them.

use vstd::prelude::*;
use crate::arrows::{
    arrow_cooldown_after, arrow_fires, arrow_flown, arrow_move, arrow_shot, arrows_off_screen, arrows_stopped,
    despawn_offscreen_arrows, fire_arrow, manage_arrow_collisions, Arrow,
};
use crate::attacks::muzzle;
use crate::collisions::{interacted_with, manage_interaction_events};
use crate::direction::{turns_between, Rotation};
use crate::events::InteractionEvent;
use crate::geometry::Position;
use crate::hookshot::{
    despawn_hookshot_out_of_range, fire_hookshot, grappling, hookshot_flown, hookshot_move, hookshot_shot,
    hookshots_latched, hookshots_out_of_range, manage_hookshot_collisions, Hookshot,
};
use crate::player::{camera_after, camera_follow, interact, moved, player_movement, rotate_player_direction_indicator};
use crate::resources::Controls;
use crate::world::{World, WorldState};

verus! {

/// What the arrow systems ask of the keeper of the registry after a frame:
/// to add the arrow that was fired, and to remove the arrows that hit an
/// obstacle and those that left the screen.
pub struct ArrowCommands {
    pub spawned: Option<(Position, Arrow)>,
    pub stopped: Vec<u32>,
    pub off_screen: Vec<u32>,
}

/// What the hookshot systems ask of the keeper of the registry after a
/// frame: to add the hookshot that was fired and to remove those out of
/// range. `latched` names the hookshot that took hold in this frame.
pub struct HookshotCommands {
    pub spawned: Option<(Position, Rotation, Hookshot)>,
    pub latched: Option<u32>,
    pub out_of_range: Vec<u32>,
}

/// All that a frame asks of the outside: the turn to apply to the drawn
/// indicator, the attacks to add and remove, and the entities to mark as
/// interacted with.
pub struct FrameCommands {
    pub turn: Rotation,
    pub arrows: ArrowCommands,
    pub hookshots: HookshotCommands,
    pub interacted: Vec<u32>,
}

impl WorldState {
    /// The world after the systems of the mover: it moves, its indicator
    /// turns, the camera follows, and an interact key press leaves its event.
    pub open spec fn after_player(self, controls: Controls, delta: u64) -> WorldState {
        let (player, translation) = moved(
            self.player,
            self.player_translation,
            self.player_entity,
            self.collidables,
            controls,
            delta,
            self.hookshot_fired,
        );
        let indicator = self.indicator.rotated(
            player.movement_direction,
            controls.active_key(self.key_bindings),
            self.key_bindings,
        );
        let camera = camera_after(translation, player, self.camera_translation, delta);
        let events = if controls.interact {
            self.events.push(InteractionEvent::carrying(indicator.place(translation), indicator.facing_direction))
        } else {
            self.events
        };
        WorldState {
            player,
            player_translation: translation,
            indicator,
            camera_translation: camera,
            events,
            ..self
        }
    }

    /// The turn that the systems of the mover apply to the indicator.
    pub open spec fn indicator_turn(self, controls: Controls, delta: u64) -> Rotation {
        Rotation::of_turns(
            turns_between(
                self.indicator.facing_direction,
                self.after_player(controls, delta).indicator.facing_direction,
            ),
        )
    }

    /// The arrows after their frame of flight.
    pub open spec fn arrows_flown(self, delta: u64) -> Seq<(Position, u32, Arrow)> {
        self.arrows.map_values(|arrow: (Position, u32, Arrow)| arrow_flown(arrow, delta))
    }

    /// The world after the arrow systems: every arrow has flown on, and the
    /// timer has run on or, after a shot, started anew.
    pub open spec fn after_arrows(self, controls: Controls, delta: u64) -> WorldState {
        WorldState {
            arrows: self.arrows_flown(delta),
            arrow_cooldown: arrow_cooldown_after(self.arrow_cooldown, controls.fire, delta),
            ..self
        }
    }

    /// The arrow that the arrow systems ask to add in this frame.
    pub open spec fn arrow_spawned(self, controls: Controls, delta: u64) -> Option<(Position, Arrow)> {
        if arrow_fires(self.arrow_cooldown, controls.fire, delta) {
            Some((muzzle(self.indicator_place(), self.indicator.facing_direction), arrow_shot(self.indicator.facing_direction)))
        } else {
            None
        }
    }

    /// The hookshots after their frame of flight, the first that grapples
    /// latched.
    pub open spec fn hookshots_flown(self, delta: u64) -> Seq<(Position, u32, Hookshot, bool)> {
        hookshots_latched(self.hookshots_moved(delta), self.hookshotables)
    }

    /// The hookshots after their frame of flight.
    pub open spec fn hookshots_moved(self, delta: u64) -> Seq<(Position, u32, Hookshot, bool)> {
        self.hookshots.map_values(|hookshot: (Position, u32, Hookshot, bool)| hookshot_flown(hookshot, delta))
    }

    /// The identities of the hookshots that the hookshot systems ask to
    /// remove in this frame.
    pub open spec fn hookshots_lost(self, delta: u64) -> Seq<u32> {
        hookshots_out_of_range(self.player_translation, self.hookshot_fired, self.hookshots_flown(delta))
    }

    /// Whether the hookshot systems fire a hookshot in this frame: its key
    /// went down, and none is out or the one that was out has just been lost.
    pub open spec fn hookshot_fires(self, controls: Controls, delta: u64) -> bool {
        controls.hookshot && !(self.hookshot_fired && self.hookshots_lost(delta).len() == 0)
    }

    /// The world after the hookshot systems: the hookshots have flown on
    /// and latched, and the mover is marked as firing while one is out.
    pub open spec fn after_hookshots(self, controls: Controls, delta: u64) -> WorldState {
        WorldState {
            hookshots: self.hookshots_flown(delta),
            hookshot_fired: (self.hookshot_fired && self.hookshots_lost(delta).len() == 0) || controls.hookshot,
            ..self
        }
    }

    /// The hookshot that the hookshot systems ask to add in this frame.
    pub open spec fn hookshot_spawned(self, controls: Controls, delta: u64) -> Option<(Position, Rotation, Hookshot)> {
        if self.hookshot_fires(controls, delta) {
            Some(
                (
                    muzzle(self.indicator_place(), self.indicator.facing_direction),
                    Rotation::of_turns(self.indicator.facing_direction.heading()),
                    hookshot_shot(self.indicator.facing_direction),
                ),
            )
        } else {
            None
        }
    }

    /// The world with the events of the frame dropped.
    pub open spec fn after_events(self) -> WorldState {
        WorldState { events: Seq::empty(), ..self }
    }

    /// The world after the systems of the mover, the arrows and the hookshot.
    pub open spec fn after_player_mod(self, controls: Controls, delta: u64) -> WorldState {
        self.after_player(controls, delta).after_arrows(controls, delta).after_hookshots(controls, delta)
    }

    /// The world after one frame.
    pub open spec fn after_tick(self, controls: Controls, delta: u64) -> WorldState {
        self.after_player_mod(controls, delta).after_events()
    }

    /// The world after a run of frames, each given by its key facts and its
    /// time.
    pub open spec fn after_frames(self, frames: Seq<(Controls, u64)>) -> WorldState
        decreases frames.len(),
    {
        if frames.len() == 0 {
            self
        } else {
            self.after_frames(frames.drop_last()).after_tick(frames.last().0, frames.last().1)
        }
    }

    /// Whether the mover is marked as firing the hookshot at the start of
    /// every frame of the run.
    pub open spec fn held_throughout(self, frames: Seq<(Controls, u64)>) -> bool {
        forall|k: int| 0 <= k < frames.len() ==> (#[trigger] self.after_frames(frames.take(k))).hookshot_fired
    }
}

/// While the mover is marked as firing the hookshot, a frame leaves it where
/// it is and in the state it is in, whatever keys are held. The mark stays
/// until a hookshot is lost out of range, and is set again at once only by a
/// new press of the hookshot key; a latched hookshot does not fly on.
pub proof fn lemma_mover_held_while_hookshot_out(world: WorldState, controls: Controls, delta: u64)
    requires
        world.hookshot_fired,
    ensures
        world.after_tick(controls, delta).player_translation == world.player_translation,
        world.after_tick(controls, delta).player == world.player,
        world.after_tick(controls, delta).hookshot_fired == (controls.hookshot || world.after_player(
            controls,
            delta,
        ).after_arrows(controls, delta).hookshots_lost(delta).len() == 0),
        forall|i: int|
            0 <= i < world.hookshots.len() && (#[trigger] world.hookshots[i]).3 ==> world.hookshots_moved(delta)[i]
                == world.hookshots[i],
{
}

/// From the frame after the hookshot is fired until the frame in which it is
/// lost, the mover stays where it is and as it is, whatever keys are held in
/// those frames and however long they take.
pub proof fn lemma_mover_held_until_hookshot_is_lost(world: WorldState, frames: Seq<(Controls, u64)>)
    requires
        world.held_throughout(frames),
    ensures
        world.after_frames(frames).player_translation == world.player_translation,
        world.after_frames(frames).player == world.player,
    decreases frames.len(),
{
    if frames.len() > 0 {
        let before = frames.drop_last();
        assert forall|k: int| 0 <= k < before.len() implies (#[trigger] world.after_frames(
            before.take(k),
        )).hookshot_fired by {
            assert(before.take(k) == frames.take(k));
        }
        lemma_mover_held_until_hookshot_is_lost(world, before);
        assert(frames.take(frames.len() - 1) == before);
        assert(world.after_frames(before).hookshot_fired);
        lemma_mover_held_while_hookshot_out(world.after_frames(before), frames.last().0, frames.last().1);
    }
}

/// A mover that is not marked as firing is marked after a frame exactly when
/// the hookshot key went down in it, and that frame asks for the hookshot.
pub proof fn lemma_hookshot_marks_mover(world: WorldState, controls: Controls, delta: u64)
    requires
        !world.hookshot_fired,
    ensures
        world.after_tick(controls, delta).hookshot_fired == controls.hookshot,
        world.after_player(controls, delta).after_arrows(controls, delta).hookshot_spawned(controls, delta).is_some()
            == controls.hookshot,
{
    assert(world.after_player(controls, delta).after_arrows(controls, delta).hookshot_fired == world.hookshot_fired);
}

/// After the systems of the mover the indicator faces the way a committed
/// mover travels, and its turn made in all stays in step with its facing.
pub proof fn lemma_indicator_follows_mover(world: WorldState, controls: Controls, delta: u64)
    ensures
        ({
            let after = world.after_tick(controls, delta);
            &&& after.player.movement_direction.as_facing() matches Some(direction) ==> after.indicator.facing_direction
                == direction
            &&& world.indicator.wf() ==> after.indicator.wf()
        }),
{
}

/// A frame asks for no arrow while the timer is not finished, and for one
/// whenever the fire key went down and it is; the shot starts the timer
/// anew.
pub proof fn lemma_frame_fires_by_cooldown(world: WorldState, controls: Controls, delta: u64)
    ensures
        ({
            let spawned = world.after_player(controls, delta).arrow_spawned(controls, delta);
            let after = world.after_tick(controls, delta);
            &&& spawned.is_some() == (controls.fire && world.arrow_cooldown.0.ticked(delta).finished)
            &&& spawned.is_some() ==> after.arrow_cooldown.0 == world.arrow_cooldown.0.ticked(delta).restarted()
            &&& spawned.is_none() ==> after.arrow_cooldown.0 == world.arrow_cooldown.0.ticked(delta)
        }),
{
}

/// A frame adds nothing to the registry and takes nothing from it: what
/// stands in the way, can be interacted with or grappled is left as it is,
/// every attack in flight is still there under its identity, and no event
/// outlives the frame.
pub proof fn lemma_frame_keeps_registry(world: WorldState, controls: Controls, delta: u64)
    ensures
        ({
            let after = world.after_tick(controls, delta);
            &&& after.collidables == world.collidables
            &&& after.interactables == world.interactables
            &&& after.hookshotables == world.hookshotables
            &&& after.player_entity == world.player_entity
            &&& after.player.speed == world.player.speed
            &&& after.key_bindings == world.key_bindings
            &&& after.events.len() == 0
            &&& after.arrows.len() == world.arrows.len()
            &&& after.hookshots.len() == world.hookshots.len()
            &&& forall|i: int| 0 <= i < world.arrows.len() ==> (#[trigger] after.arrows[i]).1 == world.arrows[i].1
            &&& forall|i: int|
                0 <= i < world.hookshots.len() ==> (#[trigger] after.hookshots[i]).1 == world.hookshots[i].1
        }),
{
    let shot = world.after_player(controls, delta).after_arrows(controls, delta);
    let flown = shot.hookshots_moved(delta);
    assert(flown.len() == world.hookshots.len());
    assert(hookshots_latched(flown, shot.hookshotables).len() == flown.len());
    assert forall|i: int| 0 <= i < world.hookshots.len() implies (#[trigger] world.after_tick(
        controls,
        delta,
    ).hookshots[i]).1 == world.hookshots[i].1 by {
        assert(flown[i].1 == world.hookshots[i].1);
    }
}

/// The systems of the mover: movement, then the indicator, then the camera,
/// then the interact key.
pub struct PlayerPlugin;

impl PlayerPlugin {
    /// Runs the systems of the mover for one frame and returns the turn
    /// applied to the indicator.
    pub fn update(&self, world: &mut World, controls: &Controls, delta: u64) -> (turn: Rotation)
        ensures
            final(world)@ == old(world)@.after_player(*controls, delta),
            turn == old(world)@.indicator_turn(*controls, delta),
    {
        let mut player = world.player;
        let mut translation = world.player_translation;
        player_movement(
            &mut player,
            &mut translation,
            world.player_entity,
            world.collidables.as_slice(),
            controls,
            delta,
            world.hookshot_fired,
        );
        world.player = player;
        world.player_translation = translation;
        let mut indicator = world.indicator;
        let turn = rotate_player_direction_indicator(&mut indicator, &player, controls, &world.key_bindings);
        world.indicator = indicator;
        let mut camera = world.camera_translation;
        camera_follow(&translation, &player, &mut camera, delta);
        world.camera_translation = camera;
        let place = indicator.translation(&translation);
        let facing = indicator.facing_direction();
        match interact(controls.interact, &place, &facing) {
            Some(event) => {
                world.events.push(event);
            },
            None => {},
        }
        turn
    }
}

/// The arrow systems: flight, then collisions, then the screen, then the
/// fire key.
pub struct ArrowsPlugin;

impl ArrowsPlugin {
    /// Runs the arrow systems for one frame and returns what they ask.
    pub fn update(&self, world: &mut World, controls: &Controls, delta: u64) -> (commands: ArrowCommands)
        ensures
            final(world)@ == old(world)@.after_arrows(*controls, delta),
            commands.spawned == old(world)@.arrow_spawned(*controls, delta),
            commands.stopped@ == arrows_stopped(old(world)@.arrows_flown(delta), old(world)@.collidables),
            commands.off_screen@ == arrows_off_screen(
                old(world)@.camera_translation,
                old(world)@.arrows_flown(delta),
            ),
    {
        arrow_move(&mut world.arrows, delta);
        let stopped = manage_arrow_collisions(world.arrows.as_slice(), world.collidables.as_slice());
        let off_screen = despawn_offscreen_arrows(&world.camera_translation, world.arrows.as_slice());
        let place = world.indicator.translation(&world.player_translation);
        let facing = world.indicator.facing_direction();
        let mut cooldown = world.arrow_cooldown;
        let spawned = fire_arrow(&mut cooldown, controls.fire, delta, &place, &facing);
        world.arrow_cooldown = cooldown;
        ArrowCommands { spawned, stopped, off_screen }
    }
}

/// The hookshot systems: flight, then the latch, then the range, then the
/// hookshot key.
pub struct HookshotPlugin;

impl HookshotPlugin {
    /// Runs the hookshot systems for one frame and returns what they ask.
    pub fn update(&self, world: &mut World, controls: &Controls, delta: u64) -> (commands: HookshotCommands)
        ensures
            final(world)@ == old(world)@.after_hookshots(*controls, delta),
            commands.spawned == old(world)@.hookshot_spawned(*controls, delta),
            commands.latched == grappling(old(world)@.hookshots_moved(delta), old(world)@.hookshotables),
            commands.out_of_range@ == old(world)@.hookshots_lost(delta),
    {
        hookshot_move(&mut world.hookshots, delta);
        let latched = manage_hookshot_collisions(&mut world.hookshots, world.hookshotables.as_slice());
        let mut fired = world.hookshot_fired;
        let out_of_range = despawn_hookshot_out_of_range(
            &world.player_translation,
            &mut fired,
            world.hookshots.as_slice(),
        );
        let place = world.indicator.translation(&world.player_translation);
        let facing = world.indicator.facing_direction();
        let spawned = fire_hookshot(controls.hookshot, &mut fired, &place, &facing);
        world.hookshot_fired = fired;
        HookshotCommands { spawned, latched, out_of_range }
    }
}

/// The system that matches interaction events against what can be
/// interacted with.
pub struct CollisionsPlugin;

impl CollisionsPlugin {
    /// Returns the identities of the entities that the events of this frame
    /// reach. The world stays as it is.
    pub fn update(&self, world: &World) -> (interacted: Vec<u32>)
        ensures
            interacted@ == interacted_with(world@.events, world@.interactables),
    {
        manage_interaction_events(world.events.as_slice(), world.interactables.as_slice())
    }
}

/// The keeper of the interaction events: they live for one frame.
pub struct EventPlugin;

impl EventPlugin {
    /// Drops the events of the frame.
    pub fn update(&self, world: &mut World)
        ensures
            final(world)@ == old(world)@.after_events(),
    {
        world.events.clear();
    }
}

/// The plugins of the mover and its attacks, in their order.
pub struct PlayerModPluginGroup;

impl PlayerModPluginGroup {
    /// Runs the systems of the mover, of the arrows and of the hookshot.
    pub fn update(&self, world: &mut World, controls: &Controls, delta: u64) -> (commands: (
        Rotation,
        ArrowCommands,
        HookshotCommands,
    ))
        ensures
            final(world)@ == old(world)@.after_player_mod(*controls, delta),
            frame_commands(old(world)@, *controls, delta, commands.0, commands.1, commands.2),
    {
        let turn = PlayerPlugin.update(world, controls, delta);
        let arrows = ArrowsPlugin.update(world, controls, delta);
        let hookshots = HookshotPlugin.update(world, controls, delta);
        (turn, arrows, hookshots)
    }
}

/// Whether the given turn and requests are those of a frame that starts in
/// `world`.
pub open spec fn frame_commands(
    world: WorldState,
    controls: Controls,
    delta: u64,
    turn: Rotation,
    arrows: ArrowCommands,
    hookshots: HookshotCommands,
) -> bool {
    let moved = world.after_player(controls, delta);
    let shot = moved.after_arrows(controls, delta);
    &&& turn == world.indicator_turn(controls, delta)
    &&& arrows.spawned == moved.arrow_spawned(controls, delta)
    &&& arrows.stopped@ == arrows_stopped(moved.arrows_flown(delta), moved.collidables)
    &&& arrows.off_screen@ == arrows_off_screen(moved.camera_translation, moved.arrows_flown(delta))
    &&& hookshots.spawned == shot.hookshot_spawned(controls, delta)
    &&& hookshots.latched == grappling(shot.hookshots_moved(delta), shot.hookshotables)
    &&& hookshots.out_of_range@ == shot.hookshots_lost(delta)
}

/// The plugins of the collision systems.
pub struct CollisionsModPluginGroup;

impl CollisionsModPluginGroup {
    /// Runs the collision systems on the events of the frame.
    pub fn update(&self, world: &World) -> (interacted: Vec<u32>)
        ensures
            interacted@ == interacted_with(world@.events, world@.interactables),
    {
        CollisionsPlugin.update(world)
    }
}

impl World {
    /// Runs one frame of `delta` nanoseconds under the given key facts: the
    /// mover, then its attacks, then the interactions. Returns what the
    /// frame asks of the outside.
    pub fn tick(&mut self, controls: &Controls, delta: u64) -> (commands: FrameCommands)
        ensures
            final(self)@ == old(self)@.after_tick(*controls, delta),
            frame_commands(old(self)@, *controls, delta, commands.turn, commands.arrows, commands.hookshots),
            commands.interacted@ == interacted_with(
                old(self)@.after_player(*controls, delta).events,
                old(self)@.interactables,
            ),
    {
        let (turn, arrows, hookshots) = PlayerModPluginGroup.update(self, controls, delta);
        let interacted = CollisionsModPluginGroup.update(self);
        EventPlugin.update(self);
        FrameCommands { turn, arrows, hookshots, interacted }
    }
}

} // verus!
