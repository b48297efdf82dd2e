//! The state that the systems share from frame to frame.

use vstd::prelude::*;
use crate::arrows::{arrow_cooldown_init, Arrow, ArrowCooldown};
use crate::events::InteractionEvent;
use crate::geometry::Position;
use crate::hookshot::Hookshot;
use crate::player::{Player, PlayerDirectionIndicator, PLAYER_SPEED};
use crate::direction::MovementDirection;
use crate::resources::KeyBindings;
use crate::selection::{lemma_filter_empty, lemma_filter_push};

verus! {

/// The world: the mover with its indicator and its mark of a hookshot that
/// is out, the camera, the key bindings, the registry of what stands in the
/// way, can be interacted with or grappled, the interaction events of the
/// running frame, and the attacks in flight. Entities are known by the
/// identity that the keeper of the registry gave them.
pub struct World {
    pub player: Player,
    pub player_translation: Position,
    pub player_entity: u32,
    pub hookshot_fired: bool,
    pub indicator: PlayerDirectionIndicator,
    pub camera_translation: Position,
    pub key_bindings: KeyBindings,
    pub collidables: Vec<(Position, u32)>,
    pub interactables: Vec<(Position, u32)>,
    pub hookshotables: Vec<(Position, u32)>,
    pub events: Vec<InteractionEvent>,
    pub arrows: Vec<(Position, u32, Arrow)>,
    pub arrow_cooldown: ArrowCooldown,
    pub hookshots: Vec<(Position, u32, Hookshot, bool)>,
}

/// The world as a value of mathematics: every list as the sequence it holds.
pub struct WorldState {
    pub player: Player,
    pub player_translation: Position,
    pub player_entity: u32,
    pub hookshot_fired: bool,
    pub indicator: PlayerDirectionIndicator,
    pub camera_translation: Position,
    pub key_bindings: KeyBindings,
    pub collidables: Seq<(Position, u32)>,
    pub interactables: Seq<(Position, u32)>,
    pub hookshotables: Seq<(Position, u32)>,
    pub events: Seq<InteractionEvent>,
    pub arrows: Seq<(Position, u32, Arrow)>,
    pub arrow_cooldown: ArrowCooldown,
    pub hookshots: Seq<(Position, u32, Hookshot, bool)>,
}

impl View for World {
    type V = WorldState;

    open spec fn view(&self) -> WorldState {
        WorldState {
            player: self.player,
            player_translation: self.player_translation,
            player_entity: self.player_entity,
            hookshot_fired: self.hookshot_fired,
            indicator: self.indicator,
            camera_translation: self.camera_translation,
            key_bindings: self.key_bindings,
            collidables: self.collidables@,
            interactables: self.interactables@,
            hookshotables: self.hookshotables@,
            events: self.events@,
            arrows: self.arrows@,
            arrow_cooldown: self.arrow_cooldown,
            hookshots: self.hookshots@,
        }
    }
}

/// Whether two identities are not the same.
pub open spec fn differs(a: u32, b: u32) -> bool {
    a != b
}

/// The arrows but those of the given identity.
pub open spec fn arrows_without(arrows: Seq<(Position, u32, Arrow)>, entity: u32) -> Seq<(Position, u32, Arrow)> {
    arrows.filter(|arrow: (Position, u32, Arrow)| differs(arrow.1, entity))
}

/// The hookshots but those of the given identity.
pub open spec fn hookshots_without(hookshots: Seq<(Position, u32, Hookshot, bool)>, entity: u32) -> Seq<
    (Position, u32, Hookshot, bool),
> {
    hookshots.filter(|hookshot: (Position, u32, Hookshot, bool)| differs(hookshot.1, entity))
}

impl WorldState {
    /// The world at its start: the mover at rest at the origin under the
    /// camera, its indicator pointing up, nothing in the registry, nothing in
    /// flight, and the arrow timer run out.
    pub open spec fn initial(player_entity: u32, key_bindings: KeyBindings) -> WorldState {
        WorldState {
            player: Player { speed: PLAYER_SPEED, movement_direction: MovementDirection::Neutral },
            player_translation: Position { x: 0, y: 0 },
            player_entity,
            hookshot_fired: false,
            indicator: PlayerDirectionIndicator::initial(),
            camera_translation: Position { x: 0, y: 0 },
            key_bindings,
            collidables: Seq::empty(),
            interactables: Seq::empty(),
            hookshotables: Seq::empty(),
            events: Seq::empty(),
            arrows: Seq::empty(),
            arrow_cooldown: ArrowCooldown(crate::cooldown::Cooldown::fresh(crate::arrows::ARROW_COOLDOWN).ticked(1_000_000_000)),
            hookshots: Seq::empty(),
        }
    }

    /// Where the indicator stands.
    pub open spec fn indicator_place(self) -> Position {
        self.indicator.place(self.player_translation)
    }

    /// The world without the attacks of the given identity.
    pub open spec fn without(self, entity: u32) -> WorldState {
        WorldState {
            arrows: arrows_without(self.arrows, entity),
            hookshots: hookshots_without(self.hookshots, entity),
            ..self
        }
    }
}

impl World {
    /// Makes the world at its start, around a mover of the given identity.
    pub fn new(player_entity: u32, key_bindings: KeyBindings) -> (world: Self)
        ensures
            world@ == WorldState::initial(player_entity, key_bindings),
            world@.arrow_cooldown.0.finished,
    {
        let mut arrow_cooldown = ArrowCooldown::default();
        arrow_cooldown_init(&mut arrow_cooldown);
        World {
            player: Player::new(PLAYER_SPEED, MovementDirection::Neutral),
            player_translation: Position { x: 0, y: 0 },
            player_entity,
            hookshot_fired: false,
            indicator: PlayerDirectionIndicator::new(),
            camera_translation: Position { x: 0, y: 0 },
            key_bindings,
            collidables: Vec::new(),
            interactables: Vec::new(),
            hookshotables: Vec::new(),
            events: Vec::new(),
            arrows: Vec::new(),
            arrow_cooldown,
            hookshots: Vec::new(),
        }
    }

    /// Takes the attacks of the given identity out of the world, as a
    /// request to remove them asks.
    pub fn despawn(&mut self, entity: u32)
        ensures
            final(self)@ == old(self)@.without(entity),
    {
        let arrows = arrows_but(&self.arrows, entity);
        let hookshots = hookshots_but(&self.hookshots, entity);
        self.arrows = arrows;
        self.hookshots = hookshots;
    }
}

fn arrows_but(arrows: &Vec<(Position, u32, Arrow)>, entity: u32) -> (kept: Vec<(Position, u32, Arrow)>)
    ensures
        kept@ == arrows_without(arrows@, entity),
{
    let ghost keep = |arrow: (Position, u32, Arrow)| differs(arrow.1, entity);
    let mut kept: Vec<(Position, u32, Arrow)> = Vec::new();
    let mut i: usize = 0;
    proof {
        lemma_filter_empty(keep);
        assert(arrows@.take(0) =~= Seq::empty());
    }
    while i < arrows.len()
        invariant
            i <= arrows.len(),
            keep == |arrow: (Position, u32, Arrow)| differs(arrow.1, entity),
            kept@ == arrows@.take(i as int).filter(keep),
        decreases arrows.len() - i,
    {
        let arrow = arrows[i];
        proof {
            lemma_filter_push(arrows@.take(i as int), arrows@[i as int], keep);
            assert(arrows@.take(i as int + 1) =~= arrows@.take(i as int).push(arrows@[i as int]));
        }
        if arrow.1 != entity {
            kept.push(arrow);
        }
        i += 1;
    }
    proof {
        assert(arrows@.take(arrows@.len() as int) =~= arrows@);
    }
    kept
}

fn hookshots_but(hookshots: &Vec<(Position, u32, Hookshot, bool)>, entity: u32) -> (kept: Vec<
    (Position, u32, Hookshot, bool),
>)
    ensures
        kept@ == hookshots_without(hookshots@, entity),
{
    let ghost keep = |hookshot: (Position, u32, Hookshot, bool)| differs(hookshot.1, entity);
    let mut kept: Vec<(Position, u32, Hookshot, bool)> = Vec::new();
    let mut i: usize = 0;
    proof {
        lemma_filter_empty(keep);
        assert(hookshots@.take(0) =~= Seq::empty());
    }
    while i < hookshots.len()
        invariant
            i <= hookshots.len(),
            keep == |hookshot: (Position, u32, Hookshot, bool)| differs(hookshot.1, entity),
            kept@ == hookshots@.take(i as int).filter(keep),
        decreases hookshots.len() - i,
    {
        let hookshot = hookshots[i];
        proof {
            lemma_filter_push(hookshots@.take(i as int), hookshots@[i as int], keep);
            assert(hookshots@.take(i as int + 1) =~= hookshots@.take(i as int).push(hookshots@[i as int]));
        }
        if hookshot.1 != entity {
            kept.push(hookshot);
        }
        i += 1;
    }
    proof {
        assert(hookshots@.take(hookshots@.len() as int) =~= hookshots@);
    }
    kept
}

} // verus!
