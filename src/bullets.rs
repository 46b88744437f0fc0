//! Projectiles: what a weapon fires and how it travels.
use crate::gamedata::EntityType;
use crate::animations::{AnimationState, SpriteAnimation, TopDownStates};
use crate::geometry::{REACH_LIMIT, SUBUNITS, Arena, Heading, Point, Transform, dist_sq, travel, travel_along, within_reach};
use crate::health::{Health, damaged};
use crate::world::{Combatant, World};
use crate::guns::{Color, Gun};
use vstd::prelude::*;

verus! {

/// What a projectile carries from the weapon that fired it.
#[derive(Clone, Copy, Debug, PartialEq, Eq, Structural)]
pub struct Bullet {
    /// Speed in arena units per second.
    pub vel: u32,
    /// Radius in arena units.
    pub size: u32,
    pub damage: u32,
    /// The faction this projectile can harm.
    pub target: EntityType,
}

/// A request to spawn a projectile.
#[derive(Clone, Copy, Debug, PartialEq, Eq, Structural)]
pub struct Shot {
    pub bullet: Bullet,
    pub origin: Point,
    /// The direction of travel, in millidegrees counter-clockwise from +Y.
    pub rotation: u32,
    pub color: Color,
    /// The entity whose weapon fired.
    pub owner: u64,
}

/// A projectile in flight.
#[derive(Clone, Copy, Debug, PartialEq, Eq, Structural)]
pub struct Projectile {
    pub bullet: Bullet,
    pub position: Point,
    pub rotation: u32,
    /// The unit vector of `rotation`, scaled.
    pub heading: Heading,
    pub color: Color,
    pub owner: u64,
}

/// The bullet a weapon fires.
pub open spec fn bullet_of(g: Gun) -> Bullet {
    Bullet { vel: g.bullet_vel, size: g.bullet_size, damage: g.bullet_damage, target: g.target }
}

/// The shot a weapon fires from `origin` along `rotation`.
pub open spec fn shot_of(g: Gun, origin: Point, rotation: u32, owner: u64) -> Shot {
    Shot { bullet: bullet_of(g), origin, rotation, color: g.color, owner }
}

impl Bullet {
    pub fn from(gun: &Gun) -> (r: Bullet)
        ensures
            r == bullet_of(*gun),
    {
        Bullet {
            vel: gun.bullet_vel,
            size: gun.bullet_size,
            damage: gun.bullet_damage,
            target: gun.target,
        }
    }

    /// A shot from the shooter's position along the weapon's aim.
    pub fn spawn(g: &Gun, t: &Transform, owner: u64) -> (r: Shot)
        ensures
            r == shot_of(*g, t.position, g.rotation, owner),
    {
        Shot { bullet: Bullet::from(g), origin: t.position, rotation: g.rotation, color: g.color, owner }
    }

    /// A shot from the shooter's position along the shooter's own facing.
    pub fn spawn_straight(g: &Gun, t: &Transform, owner: u64) -> (r: Shot)
        ensures
            r == shot_of(*g, t.position, t.rotation, owner),
    {
        Shot { bullet: Bullet::from(g), origin: t.position, rotation: t.rotation, color: g.color, owner }
    }
}

/// Where a projectile at `(x, y)` moving along `h` lands after `dt` milliseconds.
pub open spec fn moved(x: int, y: int, h: Heading, vel: int, dt: int) -> (int, int) {
    (x + travel(h.x as int, vel, dt), y + travel(h.y as int, vel, dt))
}

impl Projectile {
    /// The projectile that `shot` becomes when it travels along `heading`.
    pub open spec fn launched(shot: Shot, heading: Heading) -> Projectile {
        Projectile {
            bullet: shot.bullet,
            position: shot.origin,
            rotation: shot.rotation,
            heading,
            color: shot.color,
            owner: shot.owner,
        }
    }

    /// The projectile for `shot`, travelling along `heading` (the unit vector
    /// of the shot's rotation, which the caller computes).
    pub fn launch(shot: &Shot, heading: Heading) -> (r: Projectile)
        ensures
            r == Projectile::launched(*shot, heading),
    {
        Projectile {
            bullet: shot.bullet,
            position: shot.origin,
            rotation: shot.rotation,
            heading,
            color: shot.color,
            owner: shot.owner,
        }
    }

    /// Moves the projectile by its speed over `dt` milliseconds. Returns the
    /// new position as wide integers and whether it lies outside `arena`; the
    /// stored position is updated only when it lies inside.
    pub fn advance(&mut self, arena: &Arena, dt: u32) -> (r: (i128, i128, bool))
        requires
            old(self).heading.wf(),
            arena.wf(),
        ensures
            (r.0 as int, r.1 as int) == moved(
                old(self).position.x as int,
                old(self).position.y as int,
                old(self).heading,
                old(self).bullet.vel as int,
                dt as int,
            ),
            r.2 == arena.outside(r.0 as int, r.1 as int),
            -REACH_LIMIT < r.0 < REACH_LIMIT,
            -REACH_LIMIT < r.1 < REACH_LIMIT,
            !r.2 ==> *final(self) == (Projectile {
                position: Point { x: r.0 as i64, y: r.1 as i64 },
                ..*old(self)
            }),
            r.2 ==> *final(self) == *old(self),
    {
        let dx = travel_along(self.heading.x, self.bullet.vel, dt);
        let dy = travel_along(self.heading.y, self.bullet.vel, dt);
        let x: i128 = self.position.x as i128 + dx;
        let y: i128 = self.position.y as i128 + dy;
        let out = arena.is_outside(x, y);
        if !out {
            self.position = Point { x: x as i64, y: y as i64 };
        }
        (x, y, out)
    }
}

/// Where projectile `p` lands after `dt` milliseconds.
pub open spec fn landing(p: Projectile, dt: int) -> (int, int) {
    moved(p.position.x as int, p.position.y as int, p.heading, p.bullet.vel as int, dt)
}

/// Whether a projectile of `b` at `(x, y)` touches combatant `c`: `c` is of the
/// faction `b` targets and lies within the two radii, the bullet's size and
/// the combatant's scale (both in arena units; positions in sub-units).
pub open spec fn hits(x: int, y: int, b: Bullet, c: Combatant) -> bool {
    let reach = (b.size + c.transform.scale) * SUBUNITS;
    c.faction == b.target && dist_sq(
        x,
        y,
        c.transform.position.x as int,
        c.transform.position.y as int,
    ) <= reach * reach
}

/// An animation state switched to `Hurt`.
pub open spec fn hurt(s: AnimationState) -> AnimationState {
    if s.current != TopDownStates::Hurt {
        AnimationState { current: TopDownStates::Hurt, has_changed: true }
    } else {
        s
    }
}

/// Combatant `c` after a hit for `damage`.
pub open spec fn struck(c: Combatant, damage: int) -> Combatant {
    Combatant {
        health: Health(damaged(c.health.0 as int, damage) as i64),
        sprite: SpriteAnimation { state: hurt(c.sprite.state), ..c.sprite },
        ..c
    }
}

/// The combatants after projectile `p` lands.
pub open spec fn after_hit(cs: Seq<Combatant>, p: Projectile, dt: int) -> Seq<Combatant> {
    Seq::new(
        cs.len(),
        |j: int|
            if hits(landing(p, dt).0, landing(p, dt).1, p.bullet, cs[j]) {
                struck(cs[j], p.bullet.damage as int)
            } else {
                cs[j]
            },
    )
}

/// Whether projectile `p` touches any of `cs` where it lands.
pub open spec fn hits_any(cs: Seq<Combatant>, p: Projectile, dt: int) -> bool {
    exists|j: int|
        0 <= j < cs.len() && #[trigger] hits(landing(p, dt).0, landing(p, dt).1, p.bullet, cs[j])
}

/// The combatants after the first `n` projectiles of `ps` land, in order.
pub open spec fn combatants_after(
    cs: Seq<Combatant>,
    ps: Seq<Projectile>,
    dt: int,
    n: nat,
) -> Seq<Combatant>
    decreases n,
{
    if n == 0 {
        cs
    } else {
        after_hit(combatants_after(cs, ps, dt, (n - 1) as nat), ps[n - 1], dt)
    }
}

/// Whether projectile `p` is still in flight after this tick: it stays inside
/// `arena` and touches nobody.
pub open spec fn survives(cs: Seq<Combatant>, p: Projectile, arena: Arena, dt: int) -> bool {
    !arena.outside(landing(p, dt).0, landing(p, dt).1) && !hits_any(cs, p, dt)
}

/// The projectiles among the first `n` of `ps` still in flight, moved.
pub open spec fn projectiles_after(
    cs: Seq<Combatant>,
    ps: Seq<Projectile>,
    arena: Arena,
    dt: int,
    n: nat,
) -> Seq<Projectile>
    decreases n,
{
    if n == 0 {
        Seq::empty()
    } else {
        let prev = projectiles_after(cs, ps, arena, dt, (n - 1) as nat);
        let p = ps[n - 1];
        if survives(cs, p, arena, dt) {
            prev.push(
                Projectile {
                    position: Point { x: landing(p, dt).0 as i64, y: landing(p, dt).1 as i64 },
                    ..p
                },
            )
        } else {
            prev
        }
    }
}

/// Moves every projectile by `dt` milliseconds, applies the hits, and
/// removes the projectiles that left the arena or hit someone.
///
/// A projectile hits every combatant of its target faction within reach of
/// where it lands, even one that left the arena on this move; each hit takes
/// the projectile's damage off the combatant's health and sets it to `Hurt`.
/// A projectile is removed once, whatever the causes.
pub fn handle(world: &mut World, dt: u32)
    requires
        old(world).wf(),
    ensures
        final(world).wf(),
        final(world).arena == old(world).arena,
        final(world).guns@ == old(world).guns@,
        final(world).combatants@ == combatants_after(
            old(world).combatants@,
            old(world).projectiles@,
            dt as int,
            old(world).projectiles@.len(),
        ),
        final(world).projectiles@ == projectiles_after(
            old(world).combatants@,
            old(world).projectiles@,
            old(world).arena,
            dt as int,
            old(world).projectiles@.len(),
        ),
{
    let ghost cs0 = world.combatants@;
    let mut kept: Vec<Projectile> = Vec::new();
    let mut n: usize = 0;
    while n < world.projectiles.len()
        invariant
            0 <= n <= world.projectiles@.len(),
            world.projectiles@ == old(world).projectiles@,
            world.arena == old(world).arena,
            world.guns@ == old(world).guns@,
            old(world).wf(),
            world.wf(),
            cs0 == old(world).combatants@,
            world.combatants@.len() == cs0.len(),
            forall|j: int|
                0 <= j < cs0.len() ==> (#[trigger] world.combatants@[j]).transform
                    == cs0[j].transform && world.combatants@[j].faction == cs0[j].faction
                    && world.combatants@[j].id == cs0[j].id,
            world.combatants@ == combatants_after(cs0, world.projectiles@, dt as int, n as nat),
            kept@ == projectiles_after(cs0, world.projectiles@, world.arena, dt as int, n as nat),
            forall|i: int| 0 <= i < kept@.len() ==> #[trigger] kept@[i].heading.wf(),
        decreases world.projectiles@.len() - n,
    {
        let mut p = world.projectiles[n];
        let ghost p0 = p;
        let (x, y, out) = p.advance(&world.arena, dt);
        let ghost before = world.combatants@;
        let mut hit = false;
        let mut j: usize = 0;
        while j < world.combatants.len()
            invariant
                0 <= j <= world.combatants@.len(),
                world.combatants@.len() == before.len(),
                world.projectiles@ == old(world).projectiles@,
                world.arena == old(world).arena,
                world.guns@ == old(world).guns@,
                old(world).wf(),
                world.wf(),
                n < world.projectiles@.len(),
                before.len() == cs0.len(),
                p0 == world.projectiles@[n as int],
                p.bullet == p0.bullet,
                p.heading == p0.heading,
                forall|i: int| 0 <= i < kept@.len() ==> #[trigger] kept@[i].heading.wf(),
                (x as int, y as int) == landing(p0, dt as int),
                -REACH_LIMIT < x < REACH_LIMIT,
                -REACH_LIMIT < y < REACH_LIMIT,
                forall|i: int| 0 <= i < before.len() ==> #[trigger] before[i].wf(),
                forall|i: int|
                    0 <= i < before.len() ==> (#[trigger] before[i]).transform == cs0[i].transform
                        && before[i].faction == cs0[i].faction && before[i].id == cs0[i].id,
                forall|i: int|
                    0 <= i < j ==> #[trigger] world.combatants@[i] == after_hit(
                        before,
                        p0,
                        dt as int,
                    )[i],
                forall|i: int| j <= i < before.len() ==> #[trigger] world.combatants@[i] == before[i],
                hit == exists|i: int|
                    0 <= i < j && #[trigger] hits(x as int, y as int, p0.bullet, before[i]),
            decreases before.len() - j,
        {
            let mut c = world.combatants[j];
            let radii: i128 = p.bullet.size as i128 + c.transform.scale as i128;
            assert(radii * SUBUNITS <= 0x2_0000_0000 * SUBUNITS) by (nonlinear_arith)
                requires
                    0 <= radii <= 0x2_0000_0000i128,
            ;
            let reach: i128 = radii * SUBUNITS as i128;
            if c.faction == p.bullet.target && within_reach(x, y, c.transform.position, reach) {
                assert(hits(x as int, y as int, p0.bullet, before[j as int]));
                assert(before[j as int].wf());
                let mut health = c.health;
                health.take_damage(p.bullet.damage);
                let mut state = c.sprite.state;
                state.change_if_its_not(TopDownStates::Hurt);
                c.health = health;
                c.sprite.state = state;
                assert(c.wf());
                world.combatants.set(j, c);
                hit = true;
            } else {
                assert(!hits(x as int, y as int, p0.bullet, before[j as int]));
            }
            j = j + 1;
        }
        proof {
            assert(world.combatants@ =~= after_hit(before, p0, dt as int));
            assert(hit == hits_any(cs0, p0, dt as int)) by {
                if hit {
                    let i = choose|i: int|
                        0 <= i < before.len() && #[trigger] hits(x as int, y as int, p0.bullet, before[i]);
                    assert(hits(x as int, y as int, p0.bullet, cs0[i]));
                }
                if hits_any(cs0, p0, dt as int) {
                    let i = choose|i: int|
                        0 <= i < cs0.len() && #[trigger] hits(
                            landing(p0, dt as int).0,
                            landing(p0, dt as int).1,
                            p0.bullet,
                            cs0[i],
                        );
                    assert(hits(x as int, y as int, p0.bullet, before[i]));
                }
            }
        }
        if !out && !hit {
            assert(p.heading == p0.heading && p0.heading.wf());
            let ghost before_push = kept@;
            kept.push(p);
            assert forall|i: int| 0 <= i < kept@.len() implies #[trigger] kept@[i].heading.wf() by {
                if i < before_push.len() {
                    assert(kept@[i] == before_push[i] && before_push[i].heading.wf());
                } else {
                    assert(kept@[i] == p);
                    assert(p.heading.wf());
                }
            }
        }
        n = n + 1;
    }
    world.projectiles = kept;
}

/// The total damage that the first `n` projectiles of `ps` deal to a
/// combatant `c` where they land.
pub open spec fn damage_taken(c: Combatant, ps: Seq<Projectile>, dt: int, n: nat) -> int
    decreases n,
{
    if n == 0 {
        0
    } else {
        let p = ps[n - 1];
        damage_taken(c, ps, dt, (n - 1) as nat) + if hits(
            landing(p, dt).0,
            landing(p, dt).1,
            p.bullet,
            c,
        ) {
            p.bullet.damage as int
        } else {
            0
        }
    }
}

/// After the projectiles land, each combatant's health is its health before
/// less the damage of every projectile that hit it (bottoming out at the
/// least `i64`, which no realistic damage reaches), so collisions never raise
/// health; its place, faction and id stay as they were.
pub proof fn lemma_collision_damage(
    cs: Seq<Combatant>,
    ps: Seq<Projectile>,
    dt: int,
    n: nat,
    j: int,
)
    requires
        0 <= j < cs.len(),
        n <= ps.len(),
    ensures
        combatants_after(cs, ps, dt, n).len() == cs.len(),
        combatants_after(cs, ps, dt, n)[j].health.0 == damaged(
            cs[j].health.0 as int,
            damage_taken(cs[j], ps, dt, n),
        ),
        combatants_after(cs, ps, dt, n)[j].health.0 <= cs[j].health.0,
        cs[j].health.0 - damage_taken(cs[j], ps, dt, n) >= i64::MIN ==> combatants_after(
            cs,
            ps,
            dt,
            n,
        )[j].health.0 == cs[j].health.0 - damage_taken(cs[j], ps, dt, n),
        damage_taken(cs[j], ps, dt, n) >= 0,
        combatants_after(cs, ps, dt, n)[j].transform == cs[j].transform,
        combatants_after(cs, ps, dt, n)[j].faction == cs[j].faction,
        combatants_after(cs, ps, dt, n)[j].id == cs[j].id,
    decreases n,
{
    if n > 0 {
        let m = (n - 1) as nat;
        lemma_collision_damage(cs, ps, dt, m, j);
        let prev = combatants_after(cs, ps, dt, m);
        let p = ps[m as int];
        assert(hits(landing(p, dt).0, landing(p, dt).1, p.bullet, prev[j]) == hits(
            landing(p, dt).0,
            landing(p, dt).1,
            p.bullet,
            cs[j],
        ));
    }
}

/// Projectile `p` after `k` ticks of `dt` milliseconds in flight.
pub open spec fn flown(p: Projectile, dt: int, k: nat) -> Projectile
    decreases k,
{
    if k == 0 {
        p
    } else {
        let q = flown(p, dt, (k - 1) as nat);
        Projectile { position: Point { x: landing(q, dt).0 as i64, y: landing(q, dt).1 as i64 }, ..q }
    }
}

/// A bound on the ticks a moving projectile spends inside `arena`: each tick
/// moves it at least one sub-unit along some axis.
pub open spec fn flight_bound(arena: Arena) -> nat {
    (2 * (arena.half_width + arena.half_height) * SUBUNITS + 1) as nat
}

proof fn lemma_flown_straight(p: Projectile, arena: Arena, dt: int, j: nat)
    requires
        forall|i: nat| i < j ==> !arena.outside(#[trigger] landing(flown(p, dt, i), dt).0, landing(flown(p, dt, i), dt).1),
        arena.wf(),
    ensures
        flown(p, dt, j).heading == p.heading,
        flown(p, dt, j).bullet == p.bullet,
        flown(p, dt, j).position.x == p.position.x + j * travel(p.heading.x as int, p.bullet.vel as int, dt),
        flown(p, dt, j).position.y == p.position.y + j * travel(p.heading.y as int, p.bullet.vel as int, dt),
    decreases j,
{
    if j > 0 {
        let m = (j - 1) as nat;
        lemma_flown_straight(p, arena, dt, m);
        assert(!arena.outside(landing(flown(p, dt, m), dt).0, landing(flown(p, dt, m), dt).1));
        let sx = travel(p.heading.x as int, p.bullet.vel as int, dt);
        let sy = travel(p.heading.y as int, p.bullet.vel as int, dt);
        assert(p.position.x + m * sx + sx == p.position.x + j * sx) by (nonlinear_arith)
            requires j == m + 1;
        assert(p.position.y + m * sy + sy == p.position.y + j * sy) by (nonlinear_arith)
            requires j == m + 1;
    }
}

proof fn lemma_first_exit(p: Projectile, arena: Arena, dt: int, j: nat, bound: nat)
    requires
        arena.wf(),
        j <= bound,
        forall|i: nat| i < j ==> !arena.outside(#[trigger] landing(flown(p, dt, i), dt).0, landing(flown(p, dt, i), dt).1),
        arena.outside(
            p.position.x + (bound + 1) * travel(p.heading.x as int, p.bullet.vel as int, dt),
            p.position.y + (bound + 1) * travel(p.heading.y as int, p.bullet.vel as int, dt),
        ),
    ensures
        exists|k: nat|
            k <= bound && arena.outside(
                #[trigger] landing(flown(p, dt, k), dt).0,
                landing(flown(p, dt, k), dt).1,
            ) && forall|i: nat| i < k ==> !arena.outside(#[trigger] landing(flown(p, dt, i), dt).0, landing(flown(p, dt, i), dt).1),
    decreases bound - j,
{
    lemma_flown_straight(p, arena, dt, j);
    let sx = travel(p.heading.x as int, p.bullet.vel as int, dt);
    let sy = travel(p.heading.y as int, p.bullet.vel as int, dt);
    assert(p.position.x + j * sx + sx == p.position.x + (j + 1) * sx) by (nonlinear_arith);
    assert(p.position.y + j * sy + sy == p.position.y + (j + 1) * sy) by (nonlinear_arith);
    if !arena.outside(landing(flown(p, dt, j), dt).0, landing(flown(p, dt, j), dt).1) {
        lemma_first_exit(p, arena, dt, j + 1, bound);
    }
}

/// A projectile that starts inside the arena with a non-zero speed and a
/// non-zero heading, ticked by a non-zero step, lands outside the arena, and
/// so is removed, within a bounded number of ticks; until then it stays
/// inside.
pub proof fn lemma_leaves_arena(p: Projectile, arena: Arena, dt: int)
    requires
        arena.wf(),
        !arena.outside(p.position.x as int, p.position.y as int),
        p.bullet.vel > 0,
        dt > 0,
        p.heading.x != 0 || p.heading.y != 0,
    ensures
        exists|k: nat|
            k < flight_bound(arena) && arena.outside(
                #[trigger] landing(flown(p, dt, k), dt).0,
                landing(flown(p, dt, k), dt).1,
            ) && forall|i: nat| i < k ==> !arena.outside(#[trigger] landing(flown(p, dt, i), dt).0, landing(flown(p, dt, i), dt).1),
{
    let bound = (flight_bound(arena) - 1) as nat;
    let sx = travel(p.heading.x as int, p.bullet.vel as int, dt);
    let sy = travel(p.heading.y as int, p.bullet.vel as int, dt);
    let x = p.position.x as int;
    let y = p.position.y as int;
    let w = arena.half_width * SUBUNITS;
    let h = arena.half_height * SUBUNITS;
    assert(bound == 2 * w + 2 * h);
    assert(w >= 0 && h >= 0) by (nonlinear_arith)
        requires
            arena.half_width >= 0,
            arena.half_height >= 0,
            w == arena.half_width * SUBUNITS,
            h == arena.half_height * SUBUNITS,
    ;
    let v = p.bullet.vel as int;
    let hx = p.heading.x as int;
    let hy = p.heading.y as int;
    if hx != 0 {
        assert(hx * v * dt != 0) by (nonlinear_arith)
            requires
                hx != 0,
                v > 0,
                dt > 0,
        ;
    } else {
        assert(hy * v * dt != 0) by (nonlinear_arith)
            requires
                hy != 0,
                v > 0,
                dt > 0,
        ;
    }
    if sx != 0 {
        assert(x + (bound + 1) * sx > w || x + (bound + 1) * sx < -w) by (nonlinear_arith)
            requires
                sx != 0,
                -w <= x <= w,
                bound == 2 * w + 2 * h,
                h >= 0,
        ;
    } else {
        assert(y + (bound + 1) * sy > h || y + (bound + 1) * sy < -h) by (nonlinear_arith)
            requires
                sy != 0,
                -h <= y <= h,
                bound == 2 * w + 2 * h,
                w >= 0,
        ;
    }
    lemma_first_exit(p, arena, dt, 0, bound);
}

} // verus!
