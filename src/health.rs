//! Hit points.
use crate::bullets::Projectile;
use crate::gamedata::EntityType;
use crate::world::{Combatant, Mount, World};
use vstd::prelude::*;

verus! {

/// Hit points; an entity at zero or below is dead.
#[derive(Clone, Copy, Debug, PartialEq, Eq, Structural)]
pub struct Health(pub i64);

/// Hit points `h` less `damage`, bottoming out at the least `i64`.
pub open spec fn damaged(h: int, damage: int) -> int {
    if h - damage < i64::MIN {
        i64::MIN as int
    } else {
        h - damage
    }
}

impl Health {
    pub open spec fn dead(&self) -> bool {
        self.0 <= 0
    }

    pub fn is_dead(&self) -> (r: bool)
        ensures
            r == self.dead(),
    {
        self.0 <= 0
    }

    /// Subtracts `damage`.
    pub fn take_damage(&mut self, damage: u32)
        ensures
            final(self).0 == damaged(old(self).0 as int, damage as int),
    {
        if self.0 < i64::MIN + damage as i64 {
            self.0 = i64::MIN;
        } else {
            self.0 = self.0 - damage as i64;
        }
    }
}

/// Whether some combatant of `cs` with id `id` is dead.
pub open spec fn died(cs: Seq<Combatant>, id: u64) -> bool {
    exists|i: int| 0 <= i < cs.len() && #[trigger] cs[i].id == id && cs[i].health.dead()
}

/// The combatants still alive.
pub open spec fn survivors(cs: Seq<Combatant>) -> Seq<Combatant> {
    cs.filter(|c: Combatant| !c.health.dead())
}

/// Whether some player combatant of `cs` is dead.
pub open spec fn player_dead(cs: Seq<Combatant>) -> bool {
    exists|i: int|
        0 <= i < cs.len() && #[trigger] cs[i].faction == EntityType::Player && cs[i].health.dead()
}

proof fn lemma_filter_step<A>(s: Seq<A>, pred: spec_fn(A) -> bool, i: int)
    requires
        0 <= i < s.len(),
    ensures
        s.subrange(0, i + 1).filter(pred) == if pred(s[i]) {
            s.subrange(0, i).filter(pred).push(s[i])
        } else {
            s.subrange(0, i).filter(pred)
        },
{
    reveal(Seq::filter);
    assert(s.subrange(0, i + 1).drop_last() == s.subrange(0, i));
}

fn owner_died(cs: &Vec<Combatant>, id: u64) -> (r: bool)
    ensures
        r == died(cs@, id),
{
    let mut i: usize = 0;
    while i < cs.len()
        invariant
            0 <= i <= cs@.len(),
            forall|j: int| 0 <= j < i ==> !(#[trigger] cs@[j].id == id && cs@[j].health.dead()),
        decreases cs@.len() - i,
    {
        if cs[i].id == id && cs[i].health.is_dead() {
            return true;
        }
        i = i + 1;
    }
    false
}

/// Whether a player combatant is dead, which ends the session.
pub fn quit_on_player_death(world: &World) -> (r: bool)
    ensures
        r == player_dead(world.combatants@),
{
    let mut i: usize = 0;
    while i < world.combatants.len()
        invariant
            0 <= i <= world.combatants@.len(),
            forall|j: int|
                0 <= j < i ==> !(#[trigger] world.combatants@[j].faction == EntityType::Player
                    && world.combatants@[j].health.dead()),
        decreases world.combatants@.len() - i,
    {
        if world.combatants[i].faction == EntityType::Player && world.combatants[i].health.is_dead() {
            return true;
        }
        i = i + 1;
    }
    false
}

/// Removes every dead combatant, with its weapons and the projectiles it
/// fired; returns whether a player combatant was among them.
pub fn handle(world: &mut World) -> (player_died: bool)
    requires
        old(world).wf(),
    ensures
        final(world).wf(),
        final(world).arena == old(world).arena,
        final(world).combatants@ == survivors(old(world).combatants@),
        final(world).guns@ == old(world).guns@.filter(
            |m: Mount| !died(old(world).combatants@, m.owner),
        ),
        final(world).projectiles@ == old(world).projectiles@.filter(
            |p: Projectile| !died(old(world).combatants@, p.owner),
        ),
        player_died == player_dead(old(world).combatants@),
{
    let player_died = quit_on_player_death(world);
    let ghost cs = world.combatants@;
    let ghost alive = |c: Combatant| !c.health.dead();
    let ghost armed = |m: Mount| !died(cs, m.owner);
    let ghost flying = |p: Projectile| !died(cs, p.owner);

    let mut living: Vec<Combatant> = Vec::new();
    let mut i: usize = 0;
    while i < world.combatants.len()
        invariant
            0 <= i <= world.combatants@.len(),
            world.combatants@ == cs,
            alive == (|c: Combatant| !c.health.dead()),
            living@ == cs.subrange(0, i as int).filter(alive),
            forall|k: int| 0 <= k < living@.len() ==> #[trigger] living@[k].wf(),
            forall|k: int| 0 <= k < cs.len() ==> #[trigger] cs[k].wf(),
        decreases cs.len() - i,
    {
        proof {
            lemma_filter_step(cs, alive, i as int);
            assert(alive(cs[i as int]) == !cs[i as int].health.dead());
        }
        if !world.combatants[i].health.is_dead() {
            living.push(world.combatants[i]);
        }
        i = i + 1;
    }
    assert(cs.subrange(0, cs.len() as int) == cs);

    let ghost ms = world.guns@;
    let mut guns: Vec<Mount> = Vec::new();
    let mut k: usize = 0;
    while k < world.guns.len()
        invariant
            0 <= k <= world.guns@.len(),
            world.guns@ == ms,
            world.combatants@ == cs,
            armed == (|m: Mount| !died(cs, m.owner)),
            guns@ == ms.subrange(0, k as int).filter(armed),
            forall|j: int| 0 <= j < guns@.len() ==> #[trigger] guns@[j].gun.wf(),
            forall|j: int| 0 <= j < ms.len() ==> #[trigger] ms[j].gun.wf(),
        decreases ms.len() - k,
    {
        proof {
            lemma_filter_step(ms, armed, k as int);
            assert(armed(ms[k as int]) == !died(cs, ms[k as int].owner));
        }
        if !owner_died(&world.combatants, world.guns[k].owner) {
            guns.push(world.guns[k]);
        }
        k = k + 1;
    }
    assert(ms.subrange(0, ms.len() as int) == ms);

    let ghost ps = world.projectiles@;
    let mut shots: Vec<Projectile> = Vec::new();
    let mut n: usize = 0;
    while n < world.projectiles.len()
        invariant
            0 <= n <= world.projectiles@.len(),
            world.projectiles@ == ps,
            world.combatants@ == cs,
            flying == (|p: Projectile| !died(cs, p.owner)),
            shots@ == ps.subrange(0, n as int).filter(flying),
            forall|j: int| 0 <= j < shots@.len() ==> #[trigger] shots@[j].heading.wf(),
            forall|j: int| 0 <= j < ps.len() ==> #[trigger] ps[j].heading.wf(),
        decreases ps.len() - n,
    {
        proof {
            lemma_filter_step(ps, flying, n as int);
            assert(flying(ps[n as int]) == !died(cs, ps[n as int].owner));
        }
        if !owner_died(&world.combatants, world.projectiles[n].owner) {
            shots.push(world.projectiles[n]);
        }
        n = n + 1;
    }
    assert(ps.subrange(0, ps.len() as int) == ps);

    world.combatants = living;
    world.guns = guns;
    world.projectiles = shots;
    player_died
}

/// After deaths are resolved, no dead combatant remains, so none is found by
/// a later query or hit by a later projectile, and every living one stays.
pub proof fn lemma_dead_removed(cs: Seq<Combatant>)
    ensures
        forall|i: int|
            0 <= i < survivors(cs).len() ==> !(#[trigger] survivors(cs)[i]).health.dead(),
        forall|i: int|
            0 <= i < cs.len() && (#[trigger] cs[i]).health.dead() ==> !survivors(cs).contains(cs[i]),
        forall|i: int|
            0 <= i < cs.len() && !(#[trigger] cs[i]).health.dead() ==> survivors(cs).contains(cs[i]),
{
    let alive = |c: Combatant| !c.health.dead();
    assert forall|i: int|
        0 <= i < survivors(cs).len() implies !(#[trigger] survivors(cs)[i]).health.dead() by {
        cs.lemma_filter_pred(alive, i);
    }
    assert forall|i: int|
        0 <= i < cs.len() && !(#[trigger] cs[i]).health.dead() implies survivors(cs).contains(
            cs[i],
        ) by {
        cs.lemma_filter_contains(alive, i);
    }
    assert forall|i: int|
        0 <= i < cs.len() && (#[trigger] cs[i]).health.dead() implies !survivors(cs).contains(cs[i]) by {
        if survivors(cs).contains(cs[i]) {
            let k = choose|k: int| 0 <= k < survivors(cs).len() && survivors(cs)[k] == cs[i];
            cs.lemma_filter_pred(alive, k);
        }
    }
}

} // verus!
