//! The arena's entities and the per-tick phases that act on them.
use crate::animations::SpriteAnimation;
use crate::bullets::{Projectile, Shot};
use crate::gamedata::EntityType;
use crate::geometry::{Arena, Heading, Point, Transform, TURN};
use crate::guns::{Gun, Guns, gun_step};
use crate::health::Health;
use vstd::prelude::*;

verus! {

/// An entity that can be hit: the player or a hostile.
#[derive(Clone, Copy, Debug, PartialEq, Eq, Structural)]
pub struct Combatant {
    pub id: u64,
    pub faction: EntityType,
    pub transform: Transform,
    pub health: Health,
    pub sprite: SpriteAnimation,
}

impl Combatant {
    pub open spec fn wf(&self) -> bool {
        self.transform.rotation < TURN && self.sprite.wf()
    }
}

/// A weapon and the id of the entity that carries it.
#[derive(Clone, Copy, Debug, PartialEq, Eq, Structural)]
pub struct Mount {
    pub owner: u64,
    pub gun: Gun,
}

/// Everything the simulation tracks.
#[derive(Debug)]
pub struct World {
    pub arena: Arena,
    pub combatants: Vec<Combatant>,
    pub guns: Vec<Mount>,
    pub projectiles: Vec<Projectile>,
}

/// Entry `i` is the first combatant in `cs` with id `id`.
pub open spec fn first_id_at(cs: Seq<Combatant>, id: u64, i: int) -> bool {
    0 <= i < cs.len() && cs[i].id == id && forall|j: int| 0 <= j < i ==> #[trigger] cs[j].id != id
}

pub open spec fn has_id(cs: Seq<Combatant>, id: u64) -> bool {
    exists|i: int| 0 <= i < cs.len() && #[trigger] cs[i].id == id
}

/// Whether some combatant of faction `f` is present.
pub open spec fn has_faction(cs: Seq<Combatant>, f: EntityType) -> bool {
    exists|i: int| 0 <= i < cs.len() && #[trigger] cs[i].faction == f
}

/// One tick of a mounted weapon among `cs`: the weapon aims and fires from
/// its owner (the first combatant with its owner's id) only when the owner is
/// present and some combatant of its target faction is; otherwise it does
/// nothing this tick.
pub open spec fn mount_step(
    cs: Seq<Combatant>,
    m: Mount,
    bearing: u32,
    dt: int,
    trigger: bool,
) -> (Mount, Option<Shot>) {
    if has_id(cs, m.owner) && has_faction(cs, m.gun.target) {
        let i = choose|i: int| first_id_at(cs, m.owner, i);
        let step = gun_step(
            m.gun,
            cs[i].transform,
            m.owner,
            (bearing % TURN) as int,
            dt,
            trigger,
        );
        (Mount { gun: step.0, ..m }, step.1)
    } else {
        (m, None)
    }
}

/// The shots fired by the first `n` weapons, in order.
pub open spec fn shots_fired(
    cs: Seq<Combatant>,
    ms: Seq<Mount>,
    bearings: Seq<u32>,
    dt: int,
    trigger: bool,
    n: nat,
) -> Seq<Shot>
    decreases n,
{
    if n == 0 {
        Seq::empty()
    } else {
        let prev = shots_fired(cs, ms, bearings, dt, trigger, (n - 1) as nat);
        match mount_step(cs, ms[n - 1], bearings[n - 1], dt, trigger).1 {
            Some(s) => prev.push(s),
            None => prev,
        }
    }
}

impl World {
    pub open spec fn wf(&self) -> bool {
        &&& self.arena.wf()
        &&& forall|i: int| 0 <= i < self.combatants@.len() ==> #[trigger] self.combatants@[i].wf()
        &&& forall|i: int| 0 <= i < self.guns@.len() ==> #[trigger] self.guns@[i].gun.wf()
        &&& forall|i: int|
            0 <= i < self.projectiles@.len() ==> #[trigger] self.projectiles@[i].heading.wf()
    }

    /// An empty arena.
    pub fn new(arena: Arena) -> (r: World)
        requires
            arena.wf(),
        ensures
            r.wf(),
            r.arena == arena,
            r.combatants@.len() == 0,
            r.guns@.len() == 0,
            r.projectiles@.len() == 0,
    {
        World { arena, combatants: Vec::new(), guns: Vec::new(), projectiles: Vec::new() }
    }

    /// The first combatant with id `id`.
    pub fn find(&self, id: u64) -> (r: Option<usize>)
        ensures
            r is None <==> !has_id(self.combatants@, id),
            r matches Some(i) ==> first_id_at(self.combatants@, id, i as int),
    {
        let mut i: usize = 0;
        while i < self.combatants.len()
            invariant
                0 <= i <= self.combatants@.len(),
                forall|j: int| 0 <= j < i ==> #[trigger] self.combatants@[j].id != id,
            decreases self.combatants@.len() - i,
        {
            if self.combatants[i].id == id {
                return Some(i);
            }
            i = i + 1;
        }
        None
    }

    /// The first combatant of faction `f`.
    pub fn first_of(&self, f: EntityType) -> (r: Option<usize>)
        ensures
            r is None <==> !has_faction(self.combatants@, f),
            r matches Some(i) ==> i < self.combatants@.len() && self.combatants@[i as int].faction
                == f && forall|j: int| 0 <= j < i ==> #[trigger] self.combatants@[j].faction != f,
    {
        let mut i: usize = 0;
        while i < self.combatants.len()
            invariant
                0 <= i <= self.combatants@.len(),
                forall|j: int| 0 <= j < i ==> #[trigger] self.combatants@[j].faction != f,
            decreases self.combatants@.len() - i,
        {
            if self.combatants[i].faction == f {
                return Some(i);
            }
            i = i + 1;
        }
        None
    }

    /// The positions of the owner of weapon `k` and of the first combatant of
    /// its target faction, when both are present: the two ends of the line
    /// along which the weapon's bearing is measured.
    pub fn aim_points(&self, k: usize) -> (r: Option<(Point, Point)>)
        requires
            k < self.guns@.len(),
        ensures
            r is Some <==> has_id(self.combatants@, self.guns@[k as int].owner) && has_faction(
                self.combatants@,
                self.guns@[k as int].gun.target,
            ),
            r matches Some(pts) ==> (exists|i: int|
                first_id_at(self.combatants@, self.guns@[k as int].owner, i)
                    && #[trigger] self.combatants@[i].transform.position == pts.0) && (exists|i: int|
                0 <= i < self.combatants@.len() && #[trigger] self.combatants@[i].faction
                    == self.guns@[k as int].gun.target && self.combatants@[i].transform.position
                    == pts.1 && forall|j: int|
                    0 <= j < i ==> #[trigger] self.combatants@[j].faction
                        != self.guns@[k as int].gun.target),
    {
        let m = self.guns[k];
        match (self.find(m.owner), self.first_of(m.gun.target)) {
            (Some(i), Some(t)) => Some(
                (self.combatants[i].transform.position, self.combatants[t].transform.position),
            ),
            _ => None,
        }
    }

    /// Adds a combatant carrying `guns`.
    pub fn spawn(&mut self, c: Combatant, guns: &Guns)
        requires
            old(self).wf(),
            c.wf(),
            forall|i: int| 0 <= i < guns.0@.len() ==> #[trigger] guns.0@[i].wf(),
        ensures
            final(self).wf(),
            final(self).arena == old(self).arena,
            final(self).combatants@ == old(self).combatants@.push(c),
            final(self).guns@ == old(self).guns@ + guns.0@.map_values(
                |g: Gun| Mount { owner: c.id, gun: g },
            ),
            final(self).projectiles@ == old(self).projectiles@,
    {
        self.combatants.push(c);
        let ghost before = self.guns@;
        let mut k: usize = 0;
        while k < guns.0.len()
            invariant
                0 <= k <= guns.0@.len(),
                self.arena == old(self).arena,
                self.arena.wf(),
                self.combatants@ == old(self).combatants@.push(c),
                self.projectiles@ == old(self).projectiles@,
                before == old(self).guns@,
                forall|i: int| 0 <= i < guns.0@.len() ==> #[trigger] guns.0@[i].wf(),
                self.guns@ == before + guns.0@.subrange(0, k as int).map_values(
                    |g: Gun| Mount { owner: c.id, gun: g },
                ),
                forall|i: int| 0 <= i < self.combatants@.len() ==> #[trigger] self.combatants@[i].wf(),
                forall|i: int| 0 <= i < self.guns@.len() ==> #[trigger] self.guns@[i].gun.wf(),
                forall|i: int|
                    0 <= i < self.projectiles@.len() ==> #[trigger] self.projectiles@[i].heading.wf(),
            decreases guns.0@.len() - k,
        {
            self.guns.push(Mount { owner: c.id, gun: guns.0[k] });
            k = k + 1;
            assert(guns.0@.subrange(0, k as int) == guns.0@.subrange(0, k - 1).push(guns.0@[k - 1]));
            assert(self.guns@ == before + guns.0@.subrange(0, k as int).map_values(
                |g: Gun| Mount { owner: c.id, gun: g },
            ));
        }
        assert(guns.0@.subrange(0, guns.0@.len() as int) == guns.0@);
    }

    /// Puts a projectile for `shot` in flight along `heading`, the unit vector
    /// of the shot's rotation.
    pub fn launch(&mut self, shot: &Shot, heading: Heading)
        requires
            old(self).wf(),
            heading.wf(),
        ensures
            final(self).wf(),
            final(self).arena == old(self).arena,
            final(self).combatants@ == old(self).combatants@,
            final(self).guns@ == old(self).guns@,
            final(self).projectiles@ == old(self).projectiles@.push(
                Projectile::launched(*shot, heading),
            ),
    {
        self.projectiles.push(Projectile::launch(shot, heading));
    }

    /// Aims every weapon and fires those that are ready, after `dt`
    /// milliseconds; returns the shots in weapon order.
    ///
    /// `bearings[k]` is the direction, in millidegrees counter-clockwise from
    /// +Y, from the owner of weapon `k` to the first combatant of its target
    /// faction; it is read only when both are present. `trigger` is the fire
    /// input of trigger-driven weapons.
    pub fn fire_guns(&mut self, bearings: &Vec<u32>, dt: u32, trigger: bool) -> (r: Vec<Shot>)
        requires
            old(self).wf(),
            bearings@.len() == old(self).guns@.len(),
        ensures
            final(self).wf(),
            final(self).arena == old(self).arena,
            final(self).combatants@ == old(self).combatants@,
            final(self).projectiles@ == old(self).projectiles@,
            final(self).guns@.len() == old(self).guns@.len(),
            forall|k: int|
                0 <= k < old(self).guns@.len() ==> #[trigger] final(self).guns@[k] == mount_step(
                    old(self).combatants@,
                    old(self).guns@[k],
                    bearings@[k],
                    dt as int,
                    trigger,
                ).0,
            r@ == shots_fired(
                old(self).combatants@,
                old(self).guns@,
                bearings@,
                dt as int,
                trigger,
                old(self).guns@.len(),
            ),
    {
        let mut shots: Vec<Shot> = Vec::new();
        let mut k: usize = 0;
        while k < self.guns.len()
            invariant
                0 <= k <= self.guns@.len(),
                self.guns@.len() == old(self).guns@.len(),
                bearings@.len() == old(self).guns@.len(),
                self.arena == old(self).arena,
                self.combatants@ == old(self).combatants@,
                self.projectiles@ == old(self).projectiles@,
                old(self).wf(),
                self.wf(),
                forall|j: int|
                    0 <= j < k ==> #[trigger] self.guns@[j] == mount_step(
                        old(self).combatants@,
                        old(self).guns@[j],
                        bearings@[j],
                        dt as int,
                        trigger,
                    ).0,
                forall|j: int| k <= j < self.guns@.len() ==> #[trigger] self.guns@[j] == old(
                    self,
                ).guns@[j],
                shots@ == shots_fired(
                    old(self).combatants@,
                    old(self).guns@,
                    bearings@,
                    dt as int,
                    trigger,
                    k as nat,
                ),
            decreases self.guns@.len() - k,
        {
            let mut m = self.guns[k];
            let ghost m0 = m;
            let owner = self.find(m.owner);
            let target = self.first_of(m.gun.target);
            match (owner, target) {
                (Some(i), Some(_)) => {
                    proof {
                        let c = choose|c: int| first_id_at(self.combatants@, m0.owner, c);
                        assert(c == i) by {
                            if c < i {
                                assert(self.combatants@[c].id != m0.owner);
                            } else if c > i {
                                assert(self.combatants@[i as int].id != m0.owner);
                            }
                        }
                    }
                    let t = self.combatants[i].transform;
                    let fired = m.gun.step(&t, m.owner, bearings[k], dt, trigger);
                    self.guns.set(k, m);
                    match fired {
                        Some(s) => shots.push(s),
                        None => {},
                    }
                },
                _ => {},
            }
            k = k + 1;
        }
        shots
    }
}

} // verus!
