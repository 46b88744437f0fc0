use arena_shooter::animations::{
    animate, AnimationError, AnimationState, Animations, Indices, SpriteAnimation, TopDownStates,
};
use arena_shooter::bullets::{self, Bullet, Projectile, Shot};
use arena_shooter::enemies::EnemyConfig;
use arena_shooter::gamedata::{EntityType, GameData};
use arena_shooter::geometry::{
    rotate_angle, travel_along, turn_toward, within_reach, Arena, Heading, Point, Transform,
};
use arena_shooter::guns::{AimPattern, Color, Gun, GunConfig, GunConfigs, Guns, QuatType};
use arena_shooter::health::{self, quit_on_player_death, Health};
use arena_shooter::player::{handle_movement, player, MoveIntent};
use arena_shooter::timer::{CooldownTimer, TimerBehavior};
use arena_shooter::world::{Combatant, World};

fn frames() -> Animations {
    Animations {
        prone: Indices { first: 0, last: 3 },
        moving: Indices { first: 4, last: 7 },
        turning_left: Indices { first: 8, last: 9 },
        turning_right: Indices { first: 10, last: 11 },
        hurt: Indices { first: 12, last: 12 },
    }
}

fn sprite() -> SpriteAnimation {
    SpriteAnimation::new(frames(), TopDownStates::Prone, CooldownTimer::new(100, TimerBehavior::Repeating))
}

fn enemy_at(id: u64, x: i32, y: i32, scale: u32, health: i64) -> Combatant {
    EnemyConfig { pos_x: x, pos_y: y, health }.combatant(id, scale, sprite())
}

fn shot(vel: u32, size: u32, damage: u32, target: EntityType, x: i32, y: i32, owner: u64) -> Shot {
    Shot {
        bullet: Bullet { vel, size, damage, target },
        origin: Point::from_units(x, y),
        rotation: 0,
        color: Color { r: 0, g: 0, b: 0 },
        owner,
    }
}

fn arena() -> Arena {
    Arena { half_width: 600, half_height: 300 }
}

#[test]
fn projectile_leaves_arena_after_point_eight_seconds() {
    let mut world = World::new(arena());
    world.launch(&shot(400, 1, 1, EntityType::Enemy, 0, 0, 7), Heading { x: 0, y: 1000 });
    for _ in 0..7 {
        bullets::handle(&mut world, 100);
    }
    assert_eq!(world.projectiles.len(), 1);
    assert_eq!(world.projectiles[0].position, Point::from_units(0, 280));
    bullets::handle(&mut world, 100);
    assert!(world.projectiles.is_empty());
}

#[test]
fn projectile_single_long_tick_removed() {
    let mut world = World::new(arena());
    world.launch(&shot(400, 1, 1, EntityType::Enemy, 0, 0, 7), Heading { x: 0, y: 1000 });
    bullets::handle(&mut world, 800);
    assert!(world.projectiles.is_empty());
}

#[test]
fn projectile_on_the_boundary_stays() {
    let mut world = World::new(arena());
    world.launch(&shot(300, 1, 1, EntityType::Enemy, 0, 0, 7), Heading { x: 0, y: 1000 });
    bullets::handle(&mut world, 1000);
    assert_eq!(world.projectiles.len(), 1);
    assert_eq!(world.projectiles[0].position, Point::from_units(0, 300));
}

#[test]
fn slow_projectile_eventually_removed() {
    let mut world = World::new(Arena { half_width: 10, half_height: 10 });
    world.launch(&shot(1000, 1, 1, EntityType::Enemy, 0, 0, 7), Heading { x: -600, y: 0 });
    let mut ticks = 0;
    while !world.projectiles.is_empty() {
        bullets::handle(&mut world, 2);
        ticks += 1;
        assert!(ticks <= 41);
    }
    // 1.2 units per tick: -10.8 is the first position outside
    assert_eq!(ticks, 9);
}

#[test]
fn sub_unit_speed_still_moves_and_leaves() {
    let mut world = World::new(Arena { half_width: 1, half_height: 1 });
    world.launch(&shot(1, 1, 1, EntityType::Enemy, 0, 0, 7), Heading { x: 0, y: 1000 });
    bullets::handle(&mut world, 1);
    assert_eq!(world.projectiles[0].position, Point { x: 0, y: 1000 });
    let mut ticks = 1;
    while !world.projectiles.is_empty() {
        bullets::handle(&mut world, 1);
        ticks += 1;
        assert!(ticks <= 2_000);
    }
    // a thousandth of a unit per tick: past one unit on the 1001st tick
    assert_eq!(ticks, 1001);
}

#[test]
fn slow_diagonal_shot_advances_every_tick() {
    let mut world = World::new(arena());
    world.launch(&shot(112, 15, 5, EntityType::Player, 0, 0, 7), Heading { x: 707, y: 707 });
    bullets::handle(&mut world, 8);
    assert_eq!(world.projectiles[0].position, Point { x: 633_472, y: 633_472 });
    bullets::handle(&mut world, 8);
    assert_eq!(world.projectiles[0].position, Point { x: 1_266_944, y: 1_266_944 });
}

#[test]
fn repeating_cooldown_fires_three_times_in_650ms() {
    let mut gun = Gun::default_snap(EntityType::Player);
    let shooter = Transform { position: Point { x: 0, y: 0 }, rotation: 0, scale: 1 };
    let mut shots = 0;
    for _ in 0..13 {
        if gun.step(&shooter, 1, 0, 50, false).is_some() {
            shots += 1;
        }
    }
    assert_eq!(shots, 3);
    assert_eq!(gun.timer.elapsed, 50);
}

#[test]
fn repeating_cooldown_counts_whole_intervals() {
    let mut gun = Gun::default_spiral(EntityType::Player);
    let shooter = Transform { position: Point { x: 0, y: 0 }, rotation: 0, scale: 1 };
    let mut shots = 0;
    for _ in 0..100 {
        if gun.step(&shooter, 1, 0, 16, false).is_some() {
            shots += 1;
        }
    }
    // 1600 ms over a 50 ms cooldown
    assert_eq!(shots, 32);
}

#[test]
fn long_tick_fires_once() {
    let mut gun = Gun::default_snap(EntityType::Player);
    let shooter = Transform { position: Point { x: 0, y: 0 }, rotation: 0, scale: 1 };
    assert!(gun.step(&shooter, 1, 0, 650, false).is_some());
    assert_eq!(gun.timer.times_finished_this_tick, 3);
    assert_eq!(gun.timer.elapsed, 50);
}

#[test]
fn collision_at_reach_registers() {
    let mut world = World::new(arena());
    world.spawn(enemy_at(1, 0, 0, 3, 100), &Guns::new(vec![]));
    world.launch(&shot(0, 5, 10, EntityType::Enemy, 0, 8, 2), Heading { x: 0, y: 1000 });
    bullets::handle(&mut world, 16);
    assert!(world.projectiles.is_empty());
    assert_eq!(world.combatants[0].health, Health(90));
    assert_eq!(world.combatants[0].sprite.state, AnimationState::new(TopDownStates::Hurt, true));
}

#[test]
fn collision_beyond_reach_misses() {
    let mut world = World::new(arena());
    world.spawn(enemy_at(1, 0, 0, 3, 100), &Guns::new(vec![]));
    world.launch(&shot(0, 5, 10, EntityType::Enemy, 0, 9, 2), Heading { x: 0, y: 1000 });
    bullets::handle(&mut world, 16);
    assert_eq!(world.projectiles.len(), 1);
    assert_eq!(world.combatants[0].health, Health(100));
    assert_eq!(world.combatants[0].sprite.state.current, TopDownStates::Prone);
}

#[test]
fn collision_ignores_other_faction() {
    let mut world = World::new(arena());
    world.spawn(enemy_at(1, 0, 0, 3, 100), &Guns::new(vec![]));
    world.launch(&shot(0, 5, 10, EntityType::Player, 0, 0, 2), Heading { x: 0, y: 0 });
    bullets::handle(&mut world, 16);
    assert_eq!(world.projectiles.len(), 1);
    assert_eq!(world.combatants[0].health, Health(100));
}

#[test]
fn simultaneous_hits_all_count() {
    let mut world = World::new(arena());
    world.spawn(enemy_at(1, 10, 10, 4, 30), &Guns::new(vec![]));
    world.launch(&shot(0, 2, 20, EntityType::Enemy, 10, 12, 2), Heading { x: 0, y: 0 });
    world.launch(&shot(0, 2, 15, EntityType::Enemy, 13, 10, 2), Heading { x: 0, y: 0 });
    world.launch(&shot(0, 2, 50, EntityType::Enemy, 100, 100, 2), Heading { x: 0, y: 0 });
    bullets::handle(&mut world, 16);
    assert_eq!(world.combatants[0].health, Health(-5));
    assert_eq!(world.projectiles.len(), 1);
    assert_eq!(world.projectiles[0].bullet.damage, 50);
}

#[test]
fn out_of_bounds_projectile_still_hits_once() {
    let mut world = World::new(Arena { half_width: 10, half_height: 10 });
    world.spawn(enemy_at(1, 0, 12, 3, 100), &Guns::new(vec![]));
    world.launch(&shot(1000, 1, 7, EntityType::Enemy, 0, 8, 2), Heading { x: 0, y: 1000 });
    bullets::handle(&mut world, 3);
    assert!(world.projectiles.is_empty());
    assert_eq!(world.combatants[0].health, Health(93));
}

#[test]
fn deaths_remove_entity_guns_and_projectiles() {
    let mut world = World::new(arena());
    let data = GameData { player_speed: 100, player_size: 2, player_rotation_speed: 90_000, width: 600, height: 300 };
    world.spawn(player(1, &data, sprite()), &Guns::new(vec![Gun::player_gun()]));
    world.spawn(enemy_at(2, 50, 50, 3, 10), &Guns::new(vec![Gun::default_snap(EntityType::Player)]));
    world.launch(&shot(0, 1, 1, EntityType::Player, 300, 200, 2), Heading { x: 0, y: 0 });
    world.launch(&shot(0, 1, 1, EntityType::Enemy, 300, -200, 1), Heading { x: 0, y: 0 });
    world.launch(&shot(0, 2, 10, EntityType::Enemy, 50, 50, 1), Heading { x: 0, y: 0 });
    bullets::handle(&mut world, 16);
    assert_eq!(world.combatants[1].health, Health(0));
    assert!(!quit_on_player_death(&world));
    let player_died = health::handle(&mut world);
    assert!(!player_died);
    assert_eq!(world.combatants.len(), 1);
    assert_eq!(world.combatants[0].id, 1);
    assert_eq!(world.guns.len(), 1);
    assert_eq!(world.guns[0].owner, 1);
    assert_eq!(world.projectiles.len(), 1);
    assert_eq!(world.projectiles[0].owner, 1);
    // nothing is left to remove
    assert!(!health::handle(&mut world));
    assert_eq!(world.combatants.len(), 1);
}

#[test]
fn player_death_is_reported() {
    let mut world = World::new(arena());
    let data = GameData { player_speed: 100, player_size: 2, player_rotation_speed: 90_000, width: 600, height: 300 };
    let mut p = player(1, &data, sprite());
    p.health = Health(-3);
    world.spawn(p, &Guns::new(vec![]));
    assert!(quit_on_player_death(&world));
    assert!(health::handle(&mut world));
    assert!(world.combatants.is_empty());
    assert!(!quit_on_player_death(&world));
}

#[test]
fn snap_aim_ignores_previous_rotation() {
    assert_eq!(AimPattern::Snap.aim(12_345, 90_000, 0), 90_000);
    assert_eq!(AimPattern::Snap.aim(300_000, 90_000, 0), 90_000);
    assert_eq!(AimPattern::Snap.aim(300_000, 90_000, 500), 90_000);
}

#[test]
fn rotate_aim_is_rate_limited() {
    // 90 degrees per second for half a second
    assert_eq!(AimPattern::get_rotation_angle(0, 90_000, 500), 45_000);
    assert_eq!(AimPattern::Rotate.aim(0, 90_000, 500), 45_000);
    // no overshoot
    assert_eq!(AimPattern::get_rotation_angle(0, 10_000, 500), 10_000);
    // turns clockwise across zero
    assert_eq!(AimPattern::get_rotation_angle(0, 350_000, 500), -10_000);
    assert_eq!(AimPattern::Rotate.aim(0, 350_000, 500), 350_000);
    assert_eq!(AimPattern::get_rotation_angle(5_000, 200_000, 100), -9_000);
    // already aligned
    assert_eq!(AimPattern::get_rotation_angle(42_000, 42_000, 100), 0);
}

#[test]
fn spiral_turns_by_a_fixed_step() {
    assert_eq!(AimPattern::Spiral.aim(0, 123, 16), 11_459);
    assert_eq!(AimPattern::Spiral.aim(355_000, 0, 1000), 6_459);
    assert_eq!(AimPattern::PlayerInput.aim(7, 90_000, 16), 7);
}

#[test]
fn trigger_weapon_fires_when_ready() {
    let mut gun = Gun::player_gun();
    let shooter = Transform { position: Point::from_units(4, 5), rotation: 30_000, scale: 1 };
    assert!(gun.step(&shooter, 1, 0, 100, true).is_none());
    assert!(gun.step(&shooter, 1, 0, 100, false).is_none());
    let s = gun.step(&shooter, 1, 0, 16, true).unwrap();
    assert_eq!(s.rotation, 30_000);
    assert_eq!(s.origin, Point::from_units(4, 5));
    assert_eq!(s.bullet, Bullet { vel: 1000, size: 1, damage: 50, target: EntityType::Enemy });
    // the cooldown starts over
    assert!(gun.step(&shooter, 1, 0, 16, true).is_none());
    assert_eq!(gun.timer.elapsed, 16);
}

#[test]
fn weapons_without_target_hold_fire() {
    let mut world = World::new(arena());
    world.spawn(enemy_at(2, 50, 50, 3, 10), &Guns::new(vec![Gun::default_snap(EntityType::Player)]));
    let shots = world.fire_guns(&vec![90_000], 1000, false);
    assert!(shots.is_empty());
    assert_eq!(world.guns[0].gun.timer.elapsed, 0);
    assert_eq!(world.guns[0].gun.rotation, 0);
    assert_eq!(world.aim_points(0), None);
}

#[test]
fn weapons_aim_and_fire_in_order() {
    let mut world = World::new(arena());
    let data = GameData { player_speed: 100, player_size: 2, player_rotation_speed: 90_000, width: 600, height: 300 };
    world.spawn(player(1, &data, sprite()), &Guns::new(vec![]));
    world.spawn(
        enemy_at(2, 50, 50, 3, 10),
        &Guns::new(vec![Gun::default_snap(EntityType::Player), Gun::default_spiral(EntityType::Player)]),
    );
    assert_eq!(world.aim_points(0), Some((Point::from_units(50, 50), Point { x: 0, y: 0 })));
    let shots = world.fire_guns(&vec![135_000 + 360_000, 0], 200, false);
    assert_eq!(shots.len(), 2);
    assert_eq!(shots[0].rotation, 135_000);
    assert_eq!(shots[0].origin, Point::from_units(50, 50));
    assert_eq!(shots[0].bullet.damage, 2);
    assert_eq!(shots[1].rotation, 11_459);
    assert_eq!(shots[1].owner, 2);
    let p = Projectile::launch(&shots[0], Heading { x: -707, y: -707 });
    assert_eq!(p.position, Point::from_units(50, 50));
}

#[test]
fn frame_table_needs_every_state() {
    let entries = vec![
        (TopDownStates::Prone, Indices { first: 0, last: 1 }),
        (TopDownStates::Moving, Indices { first: 2, last: 3 }),
        (TopDownStates::TurningLeft, Indices { first: 4, last: 5 }),
        (TopDownStates::TurningRight, Indices { first: 6, last: 7 }),
    ];
    assert_eq!(
        Animations::from_entries(&entries),
        Err(AnimationError::MissingState(TopDownStates::Hurt))
    );
    let mut full = entries.clone();
    full.push((TopDownStates::Hurt, Indices { first: 8, last: 8 }));
    full.push((TopDownStates::Prone, Indices { first: 9, last: 9 }));
    let table = Animations::from_entries(&full).unwrap();
    assert_eq!(table.get(TopDownStates::Prone), Indices { first: 0, last: 1 });
    assert_eq!(table.get(TopDownStates::Hurt), Indices { first: 8, last: 8 });
    assert_eq!(Animations::from_entries(&vec![]), Err(AnimationError::MissingState(TopDownStates::Prone)));
}

#[test]
fn animation_cycles_and_resets_on_change() {
    let mut s = sprite();
    assert_eq!(s.index, 0);
    s.animate(60);
    assert_eq!(s.index, 0);
    s.animate(60);
    assert_eq!(s.index, 1);
    s.animate(100);
    s.animate(100);
    assert_eq!(s.index, 3);
    s.animate(100);
    assert_eq!(s.index, 0);
    s.state.change_if_its_not(TopDownStates::Moving);
    assert!(s.state.is(TopDownStates::Moving));
    assert!(s.state.has_changed);
    s.animate(5);
    assert_eq!(s.index, 4);
    assert!(!s.state.has_changed);
    assert_eq!(s.timer.0.elapsed, 0);
    s.state.change_if_its_not(TopDownStates::Moving);
    assert!(!s.state.has_changed);
}

#[test]
fn world_animation_advances_every_entity() {
    let mut world = World::new(arena());
    world.spawn(enemy_at(1, 0, 0, 3, 10), &Guns::new(vec![]));
    world.spawn(enemy_at(2, 5, 0, 3, 10), &Guns::new(vec![]));
    world.combatants[1].sprite.state.change_if_its_not(TopDownStates::Hurt);
    animate(&mut world, 100);
    assert_eq!(world.combatants[0].sprite.index, 1);
    assert_eq!(world.combatants[1].sprite.index, 12);
}

#[test]
fn movement_intent_priority() {
    let none = MoveIntent { forward: false, back: false, left: false, right: false, turn_left: false, turn_right: false };
    assert_eq!(none.state(), TopDownStates::Prone);
    assert_eq!(MoveIntent { forward: true, ..none }.state(), TopDownStates::Moving);
    assert_eq!(MoveIntent { forward: true, turn_left: true, ..none }.state(), TopDownStates::TurningLeft);
    assert_eq!(
        MoveIntent { forward: true, turn_left: true, turn_right: true, ..none }.state(),
        TopDownStates::TurningRight
    );
    assert_eq!(MoveIntent { forward: true, left: true, ..none }.local_direction(), (-1, 1));
    assert_eq!(MoveIntent { turn_left: true, ..none }.turn(90_000, 1000), 90_000);
    assert_eq!(MoveIntent { turn_right: true, ..none }.turn(90_000, 500), -45_000);
}

#[test]
fn player_moves_and_turns() {
    let mut world = World::new(arena());
    let data = GameData { player_speed: 100, player_size: 2, player_rotation_speed: 90_000, width: 600, height: 300 };
    world.spawn(enemy_at(1, 0, 0, 3, 10), &Guns::new(vec![]));
    world.spawn(player(2, &data, sprite()), &Guns::new(vec![]));
    let intent = MoveIntent { forward: true, back: false, left: false, right: false, turn_left: false, turn_right: true };
    assert_eq!(handle_movement(&mut world, intent, Heading { x: 0, y: 1000 }, &data, 500), Some(1));
    let p = world.combatants[1];
    assert_eq!(p.transform.position, Point::from_units(0, 50));
    assert_eq!(p.transform.rotation, 315_000);
    assert_eq!(p.sprite.state, AnimationState::new(TopDownStates::TurningRight, true));
    assert_eq!(world.combatants[0].transform.position, Point { x: 0, y: 0 });
}

#[test]
fn geometry_helpers() {
    assert_eq!(rotate_angle(359_000, 2_000), 1_000);
    assert_eq!(rotate_angle(1_000, -2_000), 359_000);
    assert_eq!(turn_toward(350_000, 10_000), 20_000);
    assert_eq!(turn_toward(0, 180_000), 180_000);
    assert_eq!(travel_along(1000, 400, 800), 320_000_000);
    assert_eq!(travel_along(-707, 100, 1000), -70_700_000);
    assert_eq!(Point::from_units(-3, 2), Point { x: -3_000_000, y: 2_000_000 });
    assert!(within_reach(3, 4, Point { x: 0, y: 0 }, 5));
    assert!(!within_reach(3, 5, Point { x: 0, y: 0 }, 5));
    let data = GameData { player_speed: 1, player_size: 1, player_rotation_speed: 1, width: -4, height: 9 };
    assert_eq!(data.arena(), Arena { half_width: 0, half_height: 9 });
    let huge = GameData { width: i64::MAX, ..data };
    assert_eq!(huge.arena().half_width, 0xffff_ffff);
}

#[test]
fn weapons_from_configuration() {
    let config = GunConfig {
        pattern: AimPattern::Rotate,
        rotation: QuatType::Nan,
        timer_duration_millis: 300,
        timer_behavior: TimerBehavior::Repeating,
        target: EntityType::Player,
        bullet_size: 4,
        bullet_vel: 90,
        bullet_damage: 6,
        bullet_color_r: 100,
        bullet_color_g: 50,
        bullet_color_b: 0,
    };
    let guns = Guns::from(GunConfigs(vec![config, GunConfig { pattern: AimPattern::Spiral, ..config }]));
    assert_eq!(guns.0.len(), 2);
    assert_eq!(guns.0[0].timer, CooldownTimer::new(300, TimerBehavior::Repeating));
    assert_eq!(guns.0[0].color, Color { r: 100, g: 50, b: 0 });
    assert_eq!(guns.0[1].pattern, AimPattern::Spiral);
    assert_eq!(Bullet::from(&guns.0[0]), Bullet { vel: 90, size: 4, damage: 6, target: EntityType::Player });
}

#[test]
fn player_moves_by_fractions_of_a_unit() {
    let mut world = World::new(arena());
    let data = GameData { player_speed: 1, player_size: 2, player_rotation_speed: 0, width: 600, height: 300 };
    world.spawn(player(2, &data, sprite()), &Guns::new(vec![]));
    let intent = MoveIntent { forward: true, back: false, left: false, right: false, turn_left: false, turn_right: false };
    for _ in 0..3 {
        handle_movement(&mut world, intent, Heading { x: 0, y: 1000 }, &data, 1);
    }
    assert_eq!(world.combatants[0].transform.position, Point { x: 0, y: 3_000 });
}

#[test]
fn default_weapons_start_unrotated() {
    let g = Gun::player_gun();
    assert_eq!(g.rotation, 0);
    assert_eq!(g.color, Color { r: 1000, g: 1000, b: 1000 });
    assert_eq!(g.timer, CooldownTimer::new(200, TimerBehavior::Once));
    assert_eq!(Gun::default_rotate(EntityType::Player).color, Color { r: 100, g: 75, b: 550 });
    assert_eq!(Gun::default_spiral(EntityType::Enemy).target, EntityType::Enemy);
}

#[test]
fn repeating_timer_keeps_remainder() {
    let mut t = CooldownTimer::new(200, TimerBehavior::Repeating);
    t.tick(450);
    assert!(t.finished() && t.just_finished());
    assert_eq!(t.times_finished_this_tick, 2);
    assert_eq!(t.elapsed, 50);
    t.tick(100);
    assert!(!t.finished() && !t.just_finished());
    assert_eq!(t.elapsed, 150);
    let mut z = CooldownTimer::new(0, TimerBehavior::Repeating);
    z.tick(5);
    assert_eq!(z.times_finished_this_tick, u32::MAX);
    assert_eq!(z.elapsed, 0);
    assert_eq!(CooldownTimer::new(u64::MAX, TimerBehavior::Once).duration, 18_446_744_073_709);
}

#[test]
fn once_timer_stays_finished() {
    let mut t = CooldownTimer::new(100, TimerBehavior::Once);
    t.tick(60);
    assert!(!t.finished());
    t.tick(60);
    assert!(t.finished() && t.just_finished());
    assert_eq!(t.elapsed, 100);
    t.tick(60);
    assert!(t.finished() && !t.just_finished());
    t.reset();
    assert!(!t.finished());
    assert_eq!(t.elapsed, 0);
}
