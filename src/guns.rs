//! Weapons: how they aim and when they fire.
use crate::bullets::{Bullet, Shot, shot_of};
use crate::gamedata::EntityType;
use crate::geometry::{Transform, HALF_TURN, TURN, rotate_angle, shortest_turn, turn_toward, wrap_angle};
use crate::timer::{
    CooldownTimer, TimerBehavior, completing_ticks, lemma_repeating_completions, run_ticks, ticked,
};
use vstd::prelude::*;

verus! {

/// The fixed turn of a spiral weapon per tick, in millidegrees (0.2 rad).
pub const SPIRAL_STEP: u32 = 11_459;

/// The turn rate of a rotating weapon, in millidegrees per second.
pub const ROTATE_RATE: u64 = 90_000;

/// How a weapon chooses its rotation each tick.
#[derive(Clone, Copy, Debug, PartialEq, Eq, Structural)]
pub enum AimPattern {
    /// Turns toward the target at a bounded rate.
    Rotate,
    /// Points straight at the target.
    Snap,
    /// Turns by a fixed step every tick.
    Spiral,
    /// Fires along its owner's facing when the trigger is pressed.
    PlayerInput,
}

/// The largest turn a rotating weapon makes in `dt` milliseconds.
pub open spec fn rotate_cap(dt: int) -> int {
    (ROTATE_RATE * dt) / 1000
}

/// The signed turn a rotating weapon makes toward `bearing` in `dt`
/// milliseconds: toward the target's side, by the turn rate or by what is left
/// to align, whichever is less.
pub open spec fn rotate_step(current: int, bearing: int, dt: int) -> int {
    let d = shortest_turn(current, bearing);
    if d >= 0 {
        if rotate_cap(dt) < d { rotate_cap(dt) } else { d }
    } else {
        if rotate_cap(dt) < -d { -rotate_cap(dt) } else { d }
    }
}

/// The rotation a weapon of pattern `p` takes, from `current`, with its target
/// at `bearing`, after `dt` milliseconds.
pub open spec fn aimed(p: AimPattern, current: int, bearing: int, dt: int) -> int {
    match p {
        AimPattern::Snap => bearing,
        AimPattern::Rotate => wrap_angle(current + rotate_step(current, bearing, dt)),
        AimPattern::Spiral => wrap_angle(current + SPIRAL_STEP),
        AimPattern::PlayerInput => current,
    }
}

impl AimPattern {
    /// The signed turn a rotating weapon at `current` makes toward `bearing`.
    pub fn get_rotation_angle(current: u32, bearing: u32, dt: u32) -> (r: i64)
        requires
            current < TURN,
            bearing < TURN,
        ensures
            r == rotate_step(current as int, bearing as int, dt as int),
            -(HALF_TURN as int) < r <= HALF_TURN,
    {
        let d = turn_toward(current, bearing);
        let cap: u64 = ROTATE_RATE * dt as u64 / 1000;
        if d >= 0 {
            if cap < d as u64 {
                cap as i64
            } else {
                d
            }
        } else {
            if cap < (-d) as u64 {
                -(cap as i64)
            } else {
                d
            }
        }
    }

    /// The rotation after aiming from `current` at a target at `bearing`.
    pub fn aim(&self, current: u32, bearing: u32, dt: u32) -> (r: u32)
        requires
            current < TURN,
            bearing < TURN,
        ensures
            r == aimed(*self, current as int, bearing as int, dt as int),
            r < TURN,
    {
        match self {
            AimPattern::Snap => bearing,
            AimPattern::Rotate => {
                let step = AimPattern::get_rotation_angle(current, bearing, dt);
                rotate_angle(current, step)
            },
            AimPattern::Spiral => rotate_angle(current, SPIRAL_STEP as i64),
            AimPattern::PlayerInput => current,
        }
    }
}

/// A colour in hundredths per channel (values above one hundred glow).
#[derive(Clone, Copy, Debug, PartialEq, Eq, Structural)]
pub struct Color {
    pub r: u16,
    pub g: u16,
    pub b: u16,
}

/// A weapon.
#[derive(Clone, Copy, Debug, PartialEq, Eq, Structural)]
pub struct Gun {
    pub pattern: AimPattern,
    pub bullet_size: u32,
    pub bullet_vel: u32,
    pub bullet_damage: u32,
    pub color: Color,
    /// The weapon's aim, in millidegrees counter-clockwise from +Y.
    pub rotation: u32,
    pub timer: CooldownTimer,
    pub target: EntityType,
}

/// One tick of a weapon mounted on `shooter`, with its target at `bearing`: the weapon afterwards and the shot it fires,
/// if any.
pub open spec fn gun_step(
    g: Gun,
    shooter: Transform,
    owner: u64,
    bearing: int,
    dt: int,
    trigger: bool,
) -> (Gun, Option<Shot>) {
    let aimed_gun = Gun {
        rotation: aimed(g.pattern, g.rotation as int, bearing, dt) as u32,
        timer: ticked(g.timer, dt),
        ..g
    };
    if g.pattern == AimPattern::PlayerInput {
        if trigger && aimed_gun.timer.finished {
            (
                Gun {
                    timer: CooldownTimer {
                        elapsed: 0,
                        finished: false,
                        times_finished_this_tick: 0,
                        ..aimed_gun.timer
                    },
                    ..aimed_gun
                },
                Some(shot_of(aimed_gun, shooter.position, shooter.rotation, owner)),
            )
        } else {
            (aimed_gun, None)
        }
    } else if aimed_gun.timer.times_finished_this_tick > 0 {
        (aimed_gun, Some(shot_of(aimed_gun, shooter.position, aimed_gun.rotation, owner)))
    } else {
        (aimed_gun, None)
    }
}

impl Gun {
    pub open spec fn wf(&self) -> bool {
        self.rotation < TURN && self.timer.wf()
    }

    pub fn new(
        pattern: AimPattern,
        bullet_size: u32,
        bullet_vel: u32,
        bullet_damage: u32,
        color: Color,
        rotation: u32,
        timer: CooldownTimer,
        target: EntityType,
    ) -> (r: Gun)
        ensures
            r == (Gun {
                pattern,
                bullet_size,
                bullet_vel,
                bullet_damage,
                color,
                rotation,
                timer,
                target,
            }),
    {
        Gun { pattern, bullet_size, bullet_vel, bullet_damage, color, rotation, timer, target }
    }

    /// Aims, advances the cooldown by `dt` milliseconds and fires if ready.
    ///
    /// `bearing` is the direction from the owner to the target, taken modulo a
    /// full turn. A trigger-driven weapon fires along its owner's facing when `trigger`
    /// is set and its cooldown has run out, and then restarts its cooldown;
    /// any other weapon fires along its own aim on each tick that completes
    /// its cooldown.
    pub fn step(
        &mut self,
        shooter: &Transform,
        owner: u64,
        bearing: u32,
        dt: u32,
        trigger: bool,
    ) -> (r: Option<Shot>)
        requires
            old(self).wf(),
        ensures
            (*final(self), r) == gun_step(
                *old(self),
                *shooter,
                owner,
                (bearing % TURN) as int,
                dt as int,
                trigger,
            ),
            final(self).wf(),
    {
        let b: u32 = bearing % TURN;
        self.rotation = self.pattern.aim(self.rotation, b, dt);
        self.timer.tick(dt as u64);
        match self.pattern {
            AimPattern::PlayerInput => {
                if trigger && self.timer.finished() {
                    let shot = Bullet::spawn_straight(self, shooter, owner);
                    self.timer.reset();
                    Some(shot)
                } else {
                    None
                }
            },
            _ => {
                if self.timer.just_finished() {
                    Some(Bullet::spawn(self, shooter, owner))
                } else {
                    None
                }
            },
        }
    }
}

/// The starting rotation a configuration names; every choice starts at
/// angle zero, and snapping weapons set theirs on the first aim.
#[derive(Clone, Copy, Debug, PartialEq, Eq, Structural)]
pub enum QuatType {
    Nan,
    Identity,
    Default,
}

/// A weapon as configured.
#[derive(Clone, Copy, Debug, PartialEq, Eq, Structural)]
pub struct GunConfig {
    pub pattern: AimPattern,
    pub rotation: QuatType,
    pub timer_duration_millis: u64,
    pub timer_behavior: TimerBehavior,
    pub target: EntityType,
    pub bullet_size: u32,
    pub bullet_vel: u32,
    pub bullet_damage: u32,
    pub bullet_color_r: u16,
    pub bullet_color_g: u16,
    pub bullet_color_b: u16,
}

/// The weapons configured for one entity.
#[derive(Debug)]
pub struct GunConfigs(pub Vec<GunConfig>);

/// The weapon a configuration describes.
pub open spec fn gun_of(c: GunConfig) -> Gun {
    Gun {
        pattern: c.pattern,
        bullet_size: c.bullet_size,
        bullet_vel: c.bullet_vel,
        bullet_damage: c.bullet_damage,
        color: Color { r: c.bullet_color_r, g: c.bullet_color_g, b: c.bullet_color_b },
        rotation: 0,
        timer: CooldownTimer::new_spec(c.timer_duration_millis, c.timer_behavior),
        target: c.target,
    }
}

impl Gun {
    /// The weapon `gunconfig` describes.
    pub fn from(gunconfig: GunConfig) -> (r: Gun)
        ensures
            r == gun_of(gunconfig),
            r.wf(),
    {
        Gun {
            pattern: gunconfig.pattern,
            bullet_size: gunconfig.bullet_size,
            bullet_vel: gunconfig.bullet_vel,
            bullet_damage: gunconfig.bullet_damage,
            color: Color {
                r: gunconfig.bullet_color_r,
                g: gunconfig.bullet_color_g,
                b: gunconfig.bullet_color_b,
            },
            rotation: match gunconfig.rotation {
                QuatType::Default => 0,
                QuatType::Identity => 0,
                QuatType::Nan => 0,
            },
            target: gunconfig.target,
            timer: CooldownTimer::new(gunconfig.timer_duration_millis, gunconfig.timer_behavior),
        }
    }

    /// The player's trigger-driven weapon.
    pub fn player_gun() -> (r: Gun)
        ensures
            r == (Gun {
                pattern: AimPattern::PlayerInput,
                bullet_size: 1,
                bullet_vel: 1000,
                bullet_damage: 50,
                color: Color { r: 1000, g: 1000, b: 1000 },
                rotation: 0,
                target: EntityType::Enemy,
                timer: CooldownTimer::new_spec(200, TimerBehavior::Once),
            }),
            r.wf(),
    {
        Gun {
            pattern: AimPattern::PlayerInput,
            bullet_size: 1,
            bullet_vel: 1000,
            bullet_damage: 50,
            color: Color { r: 1000, g: 1000, b: 1000 },
            rotation: 0,
            target: EntityType::Enemy,
            timer: CooldownTimer::new(200, TimerBehavior::Once),
        }
    }

    /// A spiral weapon aimed at `target`.
    pub fn default_spiral(target: EntityType) -> (r: Gun)
        ensures
            r == (Gun {
                pattern: AimPattern::Spiral,
                bullet_size: 8,
                bullet_vel: 275,
                bullet_damage: 15,
                color: Color { r: 750, g: 0, b: 750 },
                rotation: 0,
                target,
                timer: CooldownTimer::new_spec(50, TimerBehavior::Repeating),
            }),
            r.wf(),
    {
        Gun {
            pattern: AimPattern::Spiral,
            bullet_size: 8,
            bullet_vel: 275,
            bullet_damage: 15,
            color: Color { r: 750, g: 0, b: 750 },
            rotation: 0,
            target,
            timer: CooldownTimer::new(50, TimerBehavior::Repeating),
        }
    }

    /// A snapping weapon aimed at `target`.
    pub fn default_snap(target: EntityType) -> (r: Gun)
        ensures
            r == (Gun {
                pattern: AimPattern::Snap,
                bullet_size: 5,
                bullet_vel: 175,
                bullet_damage: 2,
                color: Color { r: 550, g: 100, b: 950 },
                rotation: 0,
                target,
                timer: CooldownTimer::new_spec(200, TimerBehavior::Repeating),
            }),
            r.wf(),
    {
        Gun {
            pattern: AimPattern::Snap,
            bullet_size: 5,
            bullet_vel: 175,
            bullet_damage: 2,
            color: Color { r: 550, g: 100, b: 950 },
            rotation: 0,
            target,
            timer: CooldownTimer::new(200, TimerBehavior::Repeating),
        }
    }

    /// A rotating weapon aimed at `target`.
    pub fn default_rotate(target: EntityType) -> (r: Gun)
        ensures
            r == (Gun {
                pattern: AimPattern::Rotate,
                bullet_size: 15,
                bullet_vel: 112,
                bullet_damage: 5,
                color: Color { r: 100, g: 75, b: 550 },
                rotation: 0,
                target,
                timer: CooldownTimer::new_spec(150, TimerBehavior::Repeating),
            }),
            r.wf(),
    {
        Gun {
            pattern: AimPattern::Rotate,
            bullet_size: 15,
            bullet_vel: 112,
            bullet_damage: 5,
            color: Color { r: 100, g: 75, b: 550 },
            rotation: 0,
            target,
            timer: CooldownTimer::new(150, TimerBehavior::Repeating),
        }
    }
}

/// The weapons of one entity, in firing order.
#[derive(Debug)]
pub struct Guns(pub Vec<Gun>);

impl Guns {
    pub fn new(guns: Vec<Gun>) -> (r: Guns)
        ensures
            r.0@ == guns@,
    {
        Guns(guns)
    }

    /// The weapons `gunconfigs` describes, in order.
    pub fn from(gunconfigs: GunConfigs) -> (r: Guns)
        ensures
            r.0@ == gunconfigs.0@.map_values(|c: GunConfig| gun_of(c)),
            forall|i: int| 0 <= i < r.0@.len() ==> #[trigger] r.0@[i].wf(),
    {
        let mut guns: Vec<Gun> = Vec::new();
        let mut i: usize = 0;
        while i < gunconfigs.0.len()
            invariant
                0 <= i <= gunconfigs.0@.len(),
                guns@ == gunconfigs.0@.subrange(0, i as int).map_values(|c: GunConfig| gun_of(c)),
                forall|k: int| 0 <= k < guns@.len() ==> #[trigger] guns@[k].wf(),
            decreases gunconfigs.0@.len() - i,
        {
            guns.push(Gun::from(gunconfigs.0[i]));
            i = i + 1;
            assert(gunconfigs.0@.subrange(0, i as int) == gunconfigs.0@.subrange(0, i - 1).push(
                gunconfigs.0@[i - 1],
            ));
        }
        assert(gunconfigs.0@.subrange(0, gunconfigs.0@.len() as int) == gunconfigs.0@);
        Guns(guns)
    }
}

/// A snapping weapon, given no time to turn, points exactly along the bearing
/// to its target, whatever its rotation was before: two snapping weapons that
/// differ only in rotation end up aimed alike.
pub proof fn lemma_snap_aim(
    g1: Gun,
    g2: Gun,
    shooter: Transform,
    owner: u64,
    bearing: int,
    trigger: bool,
)
    requires
        g1.pattern == AimPattern::Snap,
        g2 == (Gun { rotation: g2.rotation, ..g1 }),
        0 <= bearing < TURN,
    ensures
        gun_step(g1, shooter, owner, bearing, 0, trigger).0.rotation == bearing,
        gun_step(g1, shooter, owner, bearing, 0, trigger) == gun_step(
            g2,
            shooter,
            owner,
            bearing,
            0,
            trigger,
        ),
{
}

proof fn lemma_wrap_near(a: int)
    requires
        -(TURN as int) <= a < 2 * TURN,
    ensures
        wrap_angle(a) == if a < 0 {
            a + TURN
        } else if a >= TURN {
            a - TURN
        } else {
            a
        },
{
    if a < 0 {
        vstd::arithmetic::div_mod::lemma_fundamental_div_mod_converse(a, TURN as int, -1, a + TURN);
    } else if a >= TURN {
        vstd::arithmetic::div_mod::lemma_fundamental_div_mod_converse(a, TURN as int, 1, a - TURN);
    } else {
        vstd::arithmetic::div_mod::lemma_fundamental_div_mod_converse(a, TURN as int, 0, a);
    }
}

/// In one tick a rotating weapon turns by at most its rate times the elapsed
/// time, toward the target's side, and never past alignment: the turn still
/// needed afterwards is what was needed before less the turn made, on the
/// same side.
pub proof fn lemma_rotate_rate_bound(current: int, bearing: int, dt: int)
    requires
        0 <= current < TURN,
        0 <= bearing < TURN,
        dt >= 0,
    ensures
        ({
            let step = rotate_step(current, bearing, dt);
            let need = shortest_turn(current, bearing);
            let after = aimed(AimPattern::Rotate, current, bearing, dt);
            &&& after == wrap_angle(current + step)
            &&& -rotate_cap(dt) <= step <= rotate_cap(dt)
            &&& rotate_cap(dt) * 1000 <= ROTATE_RATE * dt
            &&& (need >= 0 ==> 0 <= step <= need)
            &&& (need < 0 ==> need <= step <= 0)
            &&& 0 <= after < TURN
            &&& shortest_turn(after, bearing) == need - step
        }),
{
    let step = rotate_step(current, bearing, dt);
    let need = shortest_turn(current, bearing);
    assert(rotate_cap(dt) >= 0 && rotate_cap(dt) * 1000 <= ROTATE_RATE * dt) by {
        assert(ROTATE_RATE * dt >= 0) by (nonlinear_arith)
            requires
                dt >= 0,
        ;
        vstd::arithmetic::div_mod::lemma_fundamental_div_mod(ROTATE_RATE * dt, 1000);
    }
    lemma_wrap_near(current + step);
    lemma_wrap_near(current + need);
}

/// A weapon after `n` ticks of `dt` milliseconds with the same surroundings.
pub open spec fn gun_run(
    g: Gun,
    shooter: Transform,
    owner: u64,
    bearing: int,
    dt: int,
    trigger: bool,
    n: nat,
) -> Gun
    decreases n,
{
    if n == 0 {
        g
    } else {
        gun_step(gun_run(g, shooter, owner, bearing, dt, trigger, (n - 1) as nat), shooter, owner, bearing, dt, trigger).0
    }
}

/// How many shots a weapon fires over those `n` ticks.
pub open spec fn gun_shots(
    g: Gun,
    shooter: Transform,
    owner: u64,
    bearing: int,
    dt: int,
    trigger: bool,
    n: nat,
) -> nat
    decreases n,
{
    if n == 0 {
        0
    } else {
        let prev = gun_run(g, shooter, owner, bearing, dt, trigger, (n - 1) as nat);
        gun_shots(g, shooter, owner, bearing, dt, trigger, (n - 1) as nat) + if gun_step(
            prev,
            shooter,
            owner,
            bearing,
            dt,
            trigger,
        ).1 is Some {
            1nat
        } else {
            0nat
        }
    }
}

proof fn lemma_gun_run_timer(
    g: Gun,
    shooter: Transform,
    owner: u64,
    bearing: int,
    dt: int,
    trigger: bool,
    n: nat,
)
    requires
        g.pattern != AimPattern::PlayerInput,
    ensures
        gun_run(g, shooter, owner, bearing, dt, trigger, n).timer == run_ticks(g.timer, dt, n),
        gun_run(g, shooter, owner, bearing, dt, trigger, n).pattern == g.pattern,
        gun_shots(g, shooter, owner, bearing, dt, trigger, n) == completing_ticks(g.timer, dt, n),
    decreases n,
{
    if n > 0 {
        lemma_gun_run_timer(g, shooter, owner, bearing, dt, trigger, (n - 1) as nat);
    }
}

/// A weapon on a repeating cooldown of `d` milliseconds, ticked `n` times by
/// a step no longer than `d`, fires exactly `(elapsed + n * dt) / d` shots
/// (from a fresh cooldown: the whole cooldowns in the span), at most one per
/// tick.
pub proof fn lemma_cooldown_shots(
    g: Gun,
    shooter: Transform,
    owner: u64,
    bearing: int,
    dt: int,
    trigger: bool,
    n: nat,
)
    requires
        g.pattern != AimPattern::PlayerInput,
        g.timer.mode == TimerBehavior::Repeating,
        g.timer.duration > 0,
        g.timer.elapsed < g.timer.duration,
        0 <= dt <= g.timer.duration,
    ensures
        gun_shots(g, shooter, owner, bearing, dt, trigger, n) == (g.timer.elapsed + n * dt) / (
        g.timer.duration as int),
{
    lemma_gun_run_timer(g, shooter, owner, bearing, dt, trigger, n);
    lemma_repeating_completions(g.timer, dt, n);
}

} // verus!
