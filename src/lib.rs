//! Combat and targeting simulation for a top-down arena shooter.
//!
//! Everything here works on integers: time in milliseconds, angles in
//! millidegrees, sizes and speeds in arena units, and positions in
//! millionths of an arena unit, so that each tick's motion is exact. Trigonometry (the bearing
//! from a shooter to its target, the unit vector of a rotation) is left to the
//! host, which hands the results in as plain integers.
//!
//! A tick runs these phases over a [`world::World`], in this order:
//! 1. [`player::handle_movement`]: the player's intent sets its animation
//!    state, turn and motion (a `Hurt` state from the previous tick yields to
//!    the intent here);
//! 2. [`world::World::fire_guns`]: every weapon aims and, when its cooldown
//!    allows, fires; the host launches each shot with
//!    [`world::World::launch`];
//! 3. [`bullets::handle`]: projectiles move, leave the arena, hit and damage;
//! 4. [`health::handle`]: the dead are removed, and a dead player is reported;
//! 5. [`animations::animate`]: every sprite advances.

pub mod animations;
pub mod bullets;
pub mod enemies;
pub mod gamedata;
pub mod geometry;
pub mod guns;
pub mod health;
pub mod player;
pub mod timer;
pub mod world;
