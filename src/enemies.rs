//! Hostile entities as configured.
use crate::animations::SpriteAnimation;
use crate::gamedata::EntityType;
use crate::geometry::{Point, SUBUNITS, Transform};
use crate::health::Health;
use crate::world::Combatant;
use vstd::prelude::*;

verus! {

/// Where a hostile starts (in arena units) and how much health it has.
#[derive(Clone, Copy, Debug, PartialEq, Eq, Structural)]
pub struct EnemyConfig {
    pub pos_x: i32,
    pub pos_y: i32,
    pub health: i64,
}

impl EnemyConfig {
    /// The hostile this configuration describes, with id `id`, uniform scale
    /// `scale` and animation `sprite`, facing +Y.
    pub fn combatant(&self, id: u64, scale: u32, sprite: SpriteAnimation) -> (r: Combatant)
        ensures
            r == (Combatant {
                id,
                faction: EntityType::Enemy,
                transform: Transform {
                    position: Point { x: (self.pos_x * SUBUNITS) as i64, y: (self.pos_y * SUBUNITS) as i64 },
                    rotation: 0,
                    scale,
                },
                health: Health(self.health),
                sprite,
            }),
    {
        Combatant {
            id,
            faction: EntityType::Enemy,
            transform: Transform {
                position: Point::from_units(self.pos_x, self.pos_y),
                rotation: 0,
                scale,
            },
            health: Health(self.health),
            sprite,
        }
    }
}

} // verus!
