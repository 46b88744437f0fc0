//! Factions and the arena-wide settings.
use crate::geometry::{ARENA_LIMIT, Arena};
use vstd::prelude::*;

verus! {

/// The faction an entity belongs to; weapons and projectiles name the faction
/// they are aimed at.
#[derive(Clone, Copy, Debug, PartialEq, Eq, Structural)]
pub enum EntityType {
    Enemy,
    Player,
}

/// The collision radius of an entity, in arena units.
#[derive(Clone, Copy, Debug, PartialEq, Eq, Structural)]
pub struct HitboxSize(pub u32);

/// The phase the session is in.
#[derive(Clone, Copy, Debug, PartialEq, Eq, Structural)]
pub enum GameState {
    Pause,
    InGame,
    Menu,
    Splash,
}

/// Settings shared by the whole session.
#[derive(Clone, Copy, Debug, PartialEq, Eq, Structural)]
pub struct GameData {
    /// Player speed in arena units per second.
    pub player_speed: u32,
    /// The player's uniform scale, which is also its hitbox radius.
    pub player_size: u32,
    /// Player turn rate in millidegrees per second.
    pub player_rotation_speed: u32,
    /// Half the arena's width, in arena units.
    pub width: i64,
    /// Half the arena's height, in arena units.
    pub height: i64,
}

/// `v` held within `[0, ARENA_LIMIT]`.
pub open spec fn clamp_extent(v: int) -> int {
    if v < 0 {
        0
    } else if v > ARENA_LIMIT {
        ARENA_LIMIT as int
    } else {
        v
    }
}

fn clamp_extent_exec(v: i64) -> (r: i64)
    ensures
        r == clamp_extent(v as int),
{
    if v < 0 {
        0
    } else if v > ARENA_LIMIT {
        ARENA_LIMIT
    } else {
        v
    }
}

impl GameData {
    /// The arena these settings describe, with each extent held within
    /// `[0, ARENA_LIMIT]`.
    pub fn arena(&self) -> (r: Arena)
        ensures
            r.wf(),
            r.half_width == clamp_extent(self.width as int),
            r.half_height == clamp_extent(self.height as int),
    {
        Arena { half_width: clamp_extent_exec(self.width), half_height: clamp_extent_exec(self.height) }
    }
}

} // verus!
