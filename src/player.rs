//! Movement intent of the player-controlled entity.
use crate::animations::{AnimationState, TopDownStates};
use crate::gamedata::{EntityType, GameData};
use crate::geometry::{Heading, Point, TRAVEL_LIMIT, TURN, rotate_angle, travel, travel_along, wrap_angle};
use crate::world::{Combatant, World};
use vstd::prelude::*;

verus! {

/// What the player asks for this tick.
#[derive(Clone, Copy, Debug, PartialEq, Eq, Structural)]
pub struct MoveIntent {
    pub forward: bool,
    pub back: bool,
    pub left: bool,
    pub right: bool,
    pub turn_left: bool,
    pub turn_right: bool,
}

/// The animation state an intent selects: turning right over turning left
/// over moving over standing still.
pub open spec fn intent_state(i: MoveIntent) -> TopDownStates {
    if i.turn_right {
        TopDownStates::TurningRight
    } else if i.turn_left {
        TopDownStates::TurningLeft
    } else if i.forward || i.back || i.left || i.right {
        TopDownStates::Moving
    } else {
        TopDownStates::Prone
    }
}

/// The signed turn an intent asks for in `dt` milliseconds at `rate`
/// millidegrees per second; counter-clockwise (left) is positive.
pub open spec fn intent_turn(i: MoveIntent, rate: int, dt: int) -> int {
    let amount = ((rate * dt) / 1000) % (TURN as int);
    (if i.turn_left { amount } else { 0 }) - (if i.turn_right { amount } else { 0 })
}

/// `v` held within the range of `i64`.
pub open spec fn saturate(v: int) -> int {
    if v < i64::MIN {
        i64::MIN as int
    } else if v > i64::MAX {
        i64::MAX as int
    } else {
        v
    }
}

/// The player combatant after acting on `i` for `dt` milliseconds, moving
/// along `heading`.
pub open spec fn moved_player(
    c: Combatant,
    i: MoveIntent,
    heading: Heading,
    data: GameData,
    dt: int,
) -> Combatant {
    let state = intent_state(i);
    Combatant {
        transform: crate::geometry::Transform {
            rotation: wrap_angle(
                c.transform.rotation + intent_turn(i, data.player_rotation_speed as int, dt),
            ) as u32,
            position: Point {
                x: saturate(
                    c.transform.position.x + travel(heading.x as int, data.player_speed as int, dt),
                ) as i64,
                y: saturate(
                    c.transform.position.y + travel(heading.y as int, data.player_speed as int, dt),
                ) as i64,
            },
            ..c.transform
        },
        sprite: crate::animations::SpriteAnimation {
            state: if c.sprite.state.current != state {
                AnimationState { current: state, has_changed: true }
            } else {
                c.sprite.state
            },
            ..c.sprite
        },
        ..c
    }
}

/// The health the player starts with.
pub const PLAYER_HEALTH: i64 = 3000;

/// The player entity at the origin facing +Y, with id `id`, sized by `data`.
pub fn player(id: u64, data: &GameData, sprite: crate::animations::SpriteAnimation) -> (r: Combatant)
    ensures
        r == (Combatant {
            id,
            faction: EntityType::Player,
            transform: crate::geometry::Transform {
                position: Point { x: 0, y: 0 },
                rotation: 0,
                scale: data.player_size,
            },
            health: crate::health::Health(PLAYER_HEALTH),
            sprite,
        }),
{
    Combatant {
        id,
        faction: EntityType::Player,
        transform: crate::geometry::Transform {
            position: Point { x: 0, y: 0 },
            rotation: 0,
            scale: data.player_size,
        },
        health: crate::health::Health(PLAYER_HEALTH),
        sprite,
    }
}

impl MoveIntent {
    pub fn state(&self) -> (r: TopDownStates)
        ensures
            r == intent_state(*self),
    {
        if self.turn_right {
            TopDownStates::TurningRight
        } else if self.turn_left {
            TopDownStates::TurningLeft
        } else if self.forward || self.back || self.left || self.right {
            TopDownStates::Moving
        } else {
            TopDownStates::Prone
        }
    }

    /// The direction of movement in the entity's own frame (right, forward),
    /// each component -1, 0 or 1; the host turns it by the entity's rotation
    /// and scales it into a heading.
    pub fn local_direction(&self) -> (r: (i32, i32))
        ensures
            r.0 == (if self.right { 1int } else { 0 }) - (if self.left { 1int } else { 0 }),
            r.1 == (if self.forward { 1int } else { 0 }) - (if self.back { 1int } else { 0 }),
    {
        let x: i32 = (if self.right { 1 } else { 0 }) - (if self.left { 1 } else { 0 });
        let y: i32 = (if self.forward { 1 } else { 0 }) - (if self.back { 1 } else { 0 });
        (x, y)
    }

    /// The signed turn asked for, as `intent_turn` states.
    pub fn turn(&self, rate: u32, dt: u32) -> (r: i64)
        ensures
            r == intent_turn(*self, rate as int, dt as int),
            -(TURN as int) < r < TURN,
    {
        assert(rate * dt <= 0xffff_ffffu64 * 0xffff_ffffu64) by (nonlinear_arith)
            requires
                rate <= 0xffff_ffffu32,
                dt <= 0xffff_ffffu32,
        ;
        let amount: u64 = (rate as u64 * dt as u64 / 1000) % (TURN as u64);
        let l: i64 = if self.turn_left { amount as i64 } else { 0 };
        let r: i64 = if self.turn_right { amount as i64 } else { 0 };
        l - r
    }
}

fn saturating_shift(v: i64, d: i128) -> (r: i64)
    requires
        -TRAVEL_LIMIT < d < TRAVEL_LIMIT,
    ensures
        r == saturate(v + d),
{
    let s: i128 = v as i128 + d;
    if s < i64::MIN as i128 {
        i64::MIN
    } else if s > i64::MAX as i128 {
        i64::MAX
    } else {
        s as i64
    }
}

/// Applies the player's intent for `dt` milliseconds to the first player
/// combatant, if there is one: its animation state follows the intent, it
/// turns at the configured rate and moves along `heading` (the unit vector of
/// the intent's direction in the world, zero when standing) at the configured
/// speed.
///
/// Runs before the projectiles of the tick, so a `Hurt` state set by a hit is
/// shown for one animation step and then yields to the next intent.
pub fn handle_movement(
    world: &mut World,
    intent: MoveIntent,
    heading: Heading,
    data: &GameData,
    dt: u32,
) -> (r: Option<usize>)
    requires
        old(world).wf(),
        heading.wf(),
    ensures
        final(world).wf(),
        final(world).arena == old(world).arena,
        final(world).guns@ == old(world).guns@,
        final(world).projectiles@ == old(world).projectiles@,
        r is None ==> final(world).combatants@ == old(world).combatants@,
        r matches Some(i) ==> i < old(world).combatants@.len()
            && old(world).combatants@[i as int].faction == EntityType::Player
            && (forall|j: int| 0 <= j < i ==> #[trigger] old(world).combatants@[j].faction != EntityType::Player)
            && final(world).combatants@ == old(world).combatants@.update(
            i as int,
            moved_player(old(world).combatants@[i as int], intent, heading, *data, dt as int),
        ),
        r is None ==> forall|j: int|
            0 <= j < old(world).combatants@.len() ==> #[trigger] old(world).combatants@[j].faction
                != EntityType::Player,
{
    let mut i: usize = 0;
    while i < world.combatants.len()
        invariant
            0 <= i <= world.combatants@.len(),
            world.combatants@ == old(world).combatants@,
            world.guns@ == old(world).guns@,
            world.projectiles@ == old(world).projectiles@,
            world.arena == old(world).arena,
            world.wf(),
            heading.wf(),
            forall|j: int| 0 <= j < i ==> #[trigger] world.combatants@[j].faction != EntityType::Player,
        decreases world.combatants@.len() - i,
    {
        if world.combatants[i].faction == EntityType::Player {
            let mut c = world.combatants[i];
            assert(c.wf());
            let mut state = c.sprite.state;
            state.change_if_its_not(intent.state());
            c.sprite.state = state;
            let turn = intent.turn(data.player_rotation_speed, dt);
            c.transform.rotation = rotate_angle(c.transform.rotation, turn);
            let dx = travel_along(heading.x, data.player_speed, dt);
            let dy = travel_along(heading.y, data.player_speed, dt);
            c.transform.position = Point {
                x: saturating_shift(c.transform.position.x, dx),
                y: saturating_shift(c.transform.position.y, dy),
            };
            world.combatants.set(i, c);
            return Some(i);
        }
        i = i + 1;
    }
    None
}

} // verus!
