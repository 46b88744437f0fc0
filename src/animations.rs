//! The sprite animation state machine.
use crate::timer::{CooldownTimer, ticked};
use crate::world::{Combatant, World};
use vstd::prelude::*;

verus! {

/// The logical states an animated entity can be in.
#[derive(Clone, Copy, Debug, PartialEq, Eq, Structural)]
pub enum TopDownStates {
    Prone,
    Moving,
    TurningLeft,
    TurningRight,
    Hurt,
}

/// The current state, and whether it changed since the last animation step.
#[derive(Clone, Copy, Debug, PartialEq, Eq, Structural)]
pub struct AnimationState {
    pub current: TopDownStates,
    pub has_changed: bool,
}

impl AnimationState {
    pub fn new(current: TopDownStates, has_changed: bool) -> (r: AnimationState)
        ensures
            r == (AnimationState { current, has_changed }),
    {
        AnimationState { current, has_changed }
    }

    pub fn is(&self, animation: TopDownStates) -> (r: bool)
        ensures
            r == (self.current == animation),
    {
        self.current == animation
    }

    /// Moves to `new`, flagging the change, unless already there.
    pub fn change_if_its_not(&mut self, new: TopDownStates)
        ensures
            old(self).current != new ==> *final(self) == (AnimationState {
                current: new,
                has_changed: true,
            }),
            old(self).current == new ==> *final(self) == *old(self),
    {
        if self.current != new {
            self.current = new;
            self.has_changed = true;
        }
    }
}

/// A range of frames in a sprite sheet, both ends included.
#[derive(Clone, Copy, Debug, PartialEq, Eq, Structural)]
pub struct Indices {
    pub first: usize,
    pub last: usize,
}

/// The frame range of every state.
#[derive(Clone, Copy, Debug, PartialEq, Eq, Structural)]
pub struct Animations {
    pub prone: Indices,
    pub moving: Indices,
    pub turning_left: Indices,
    pub turning_right: Indices,
    pub hurt: Indices,
}

/// Why a frame table could not be built.
#[derive(Clone, Copy, Debug, PartialEq, Eq, Structural)]
pub enum AnimationError {
    /// The table has no entry for this state.
    MissingState(TopDownStates),
}

/// Entry `i` is the first entry of `entries` for `state`.
pub open spec fn first_entry_at(
    entries: Seq<(TopDownStates, Indices)>,
    state: TopDownStates,
    i: int,
) -> bool {
    0 <= i < entries.len() && entries[i].0 == state && forall|j: int|
        0 <= j < i ==> #[trigger] entries[j].0 != state
}

/// Whether `entries` has an entry for `state`.
pub open spec fn has_entry(entries: Seq<(TopDownStates, Indices)>, state: TopDownStates) -> bool {
    exists|i: int| 0 <= i < entries.len() && #[trigger] entries[i].0 == state
}

/// The state, in table order, with no entry in `entries`, if any.
pub open spec fn first_missing(entries: Seq<(TopDownStates, Indices)>) -> Option<TopDownStates> {
    if !has_entry(entries, TopDownStates::Prone) {
        Some(TopDownStates::Prone)
    } else if !has_entry(entries, TopDownStates::Moving) {
        Some(TopDownStates::Moving)
    } else if !has_entry(entries, TopDownStates::TurningLeft) {
        Some(TopDownStates::TurningLeft)
    } else if !has_entry(entries, TopDownStates::TurningRight) {
        Some(TopDownStates::TurningRight)
    } else if !has_entry(entries, TopDownStates::Hurt) {
        Some(TopDownStates::Hurt)
    } else {
        None
    }
}

/// The frame range that the first entry for `state` gives.
pub open spec fn entry_frames(
    entries: Seq<(TopDownStates, Indices)>,
    state: TopDownStates,
) -> Indices {
    entries[choose|i: int| first_entry_at(entries, state, i)].1
}

/// The first entry of `entries` for `state`.
fn find_entry(entries: &Vec<(TopDownStates, Indices)>, state: TopDownStates) -> (r: Option<
    Indices,
>)
    ensures
        r is None <==> !has_entry(entries@, state),
        r matches Some(ix) ==> ix == entry_frames(entries@, state),
{
    let mut i: usize = 0;
    while i < entries.len()
        invariant
            0 <= i <= entries@.len(),
            forall|j: int| 0 <= j < i ==> #[trigger] entries@[j].0 != state,
        decreases entries@.len() - i,
    {
        if entries[i].0 == state {
            proof {
                assert(first_entry_at(entries@, state, i as int));
                let k = choose|k: int| first_entry_at(entries@, state, k);
                assert(k == i) by {
                    if k < i {
                        assert(entries@[k].0 != state);
                    } else if k > i {
                        assert(entries@[i as int].0 != state);
                    }
                }
            }
            return Some(entries[i].1);
        }
        i = i + 1;
    }
    None
}

impl Animations {
    /// The frame range of `state`.
    pub open spec fn frames(&self, state: TopDownStates) -> Indices {
        match state {
            TopDownStates::Prone => self.prone,
            TopDownStates::Moving => self.moving,
            TopDownStates::TurningLeft => self.turning_left,
            TopDownStates::TurningRight => self.turning_right,
            TopDownStates::Hurt => self.hurt,
        }
    }

    pub fn get(&self, state: TopDownStates) -> (r: Indices)
        ensures
            r == self.frames(state),
    {
        match state {
            TopDownStates::Prone => self.prone,
            TopDownStates::Moving => self.moving,
            TopDownStates::TurningLeft => self.turning_left,
            TopDownStates::TurningRight => self.turning_right,
            TopDownStates::Hurt => self.hurt,
        }
    }

    /// Builds the table from a list of (state, frames) entries; the first
    /// entry for a state counts. Every state must have an entry.
    pub fn from_entries(entries: &Vec<(TopDownStates, Indices)>) -> (r: Result<
        Animations,
        AnimationError,
    >)
        ensures
            r is Ok <==> first_missing(entries@) is None,
            r matches Err(AnimationError::MissingState(s)) ==> first_missing(entries@) == Some(s),
            r matches Ok(a) ==> forall|s: TopDownStates| #[trigger]
                a.frames(s) == entry_frames(entries@, s),
    {
        let prone = match find_entry(entries, TopDownStates::Prone) {
            Some(ix) => ix,
            None => { return Err(AnimationError::MissingState(TopDownStates::Prone)) },
        };
        let moving = match find_entry(entries, TopDownStates::Moving) {
            Some(ix) => ix,
            None => { return Err(AnimationError::MissingState(TopDownStates::Moving)) },
        };
        let turning_left = match find_entry(entries, TopDownStates::TurningLeft) {
            Some(ix) => ix,
            None => { return Err(AnimationError::MissingState(TopDownStates::TurningLeft)) },
        };
        let turning_right = match find_entry(entries, TopDownStates::TurningRight) {
            Some(ix) => ix,
            None => { return Err(AnimationError::MissingState(TopDownStates::TurningRight)) },
        };
        let hurt = match find_entry(entries, TopDownStates::Hurt) {
            Some(ix) => ix,
            None => { return Err(AnimationError::MissingState(TopDownStates::Hurt)) },
        };
        let a = Animations { prone, moving, turning_left, turning_right, hurt };
        assert forall|s: TopDownStates| #[trigger] a.frames(s) == entry_frames(entries@, s) by {
            match s {
                TopDownStates::Prone => {},
                TopDownStates::Moving => {},
                TopDownStates::TurningLeft => {},
                TopDownStates::TurningRight => {},
                TopDownStates::Hurt => {},
            }
        }
        Ok(a)
    }
}

/// The timer that paces frame changes.
#[derive(Clone, Copy, Debug, PartialEq, Eq, Structural)]
pub struct AnimationTimer(pub CooldownTimer);

/// The animation of one entity: its state, frame table, pacing timer and the
/// frame on display.
#[derive(Clone, Copy, Debug, PartialEq, Eq, Structural)]
pub struct SpriteAnimation {
    pub state: AnimationState,
    pub animations: Animations,
    pub timer: AnimationTimer,
    pub index: usize,
}

/// One animation step of `dt` milliseconds.
///
/// A state change shows the new state's first frame at once and restarts the
/// timer. Otherwise the timer advances, and each tick on which it completes
/// moves to the next frame, wrapping from the state's last frame to its first.
pub open spec fn animated(s: SpriteAnimation, dt: int) -> SpriteAnimation {
    let ix = s.animations.frames(s.state.current);
    if s.state.has_changed {
        SpriteAnimation {
            state: AnimationState { has_changed: false, ..s.state },
            timer: AnimationTimer(
                CooldownTimer { elapsed: 0, finished: false, times_finished_this_tick: 0, ..s.timer.0 },
            ),
            index: ix.first,
            ..s
        }
    } else {
        let t = ticked(s.timer.0, dt);
        SpriteAnimation {
            timer: AnimationTimer(t),
            index: if t.times_finished_this_tick > 0 {
                if s.index >= ix.last {
                    ix.first
                } else {
                    (s.index + 1) as usize
                }
            } else {
                s.index
            },
            ..s
        }
    }
}

impl SpriteAnimation {
    pub open spec fn wf(&self) -> bool {
        self.timer.0.wf()
    }

    /// Starts in `state` on its first frame, paced by `timer`.
    pub fn new(animations: Animations, state: TopDownStates, timer: CooldownTimer) -> (r:
        SpriteAnimation)
        ensures
            r == (SpriteAnimation {
                state: AnimationState { current: state, has_changed: false },
                animations,
                timer: AnimationTimer(timer),
                index: animations.frames(state).first,
            }),
    {
        SpriteAnimation {
            state: AnimationState::new(state, false),
            animations,
            timer: AnimationTimer(timer),
            index: animations.get(state).first,
        }
    }

    /// Advances the animation by `dt` milliseconds, as `animated` states.
    pub fn animate(&mut self, dt: u32)
        requires
            old(self).wf(),
        ensures
            *final(self) == animated(*old(self), dt as int),
            final(self).wf(),
    {
        let ix = self.animations.get(self.state.current);
        if self.state.has_changed {
            self.timer.0.reset();
            self.index = ix.first;
            self.state.has_changed = false;
        } else {
            self.timer.0.tick(dt as u64);
            if self.timer.0.just_finished() {
                if self.index >= ix.last {
                    self.index = ix.first;
                } else {
                    self.index = self.index + 1;
                }
            }
        }
    }
}

/// Advances every combatant's animation by `dt` milliseconds.
pub fn animate(world: &mut World, dt: u32)
    requires
        old(world).wf(),
    ensures
        final(world).wf(),
        final(world).arena == old(world).arena,
        final(world).guns@ == old(world).guns@,
        final(world).projectiles@ == old(world).projectiles@,
        final(world).combatants@.len() == old(world).combatants@.len(),
        forall|j: int|
            0 <= j < old(world).combatants@.len() ==> #[trigger] final(world).combatants@[j] == (
            Combatant { sprite: animated(old(world).combatants@[j].sprite, dt as int), ..old(world).combatants@[j] }),
{
    let mut j: usize = 0;
    while j < world.combatants.len()
        invariant
            0 <= j <= world.combatants@.len(),
            world.combatants@.len() == old(world).combatants@.len(),
            world.arena == old(world).arena,
            world.guns@ == old(world).guns@,
            world.projectiles@ == old(world).projectiles@,
            world.wf(),
            forall|i: int|
                0 <= i < j ==> #[trigger] world.combatants@[i] == (Combatant {
                    sprite: animated(old(world).combatants@[i].sprite, dt as int),
                    ..old(world).combatants@[i]
                }),
            forall|i: int|
                j <= i < world.combatants@.len() ==> #[trigger] world.combatants@[i] == old(
                    world,
                ).combatants@[i],
        decreases world.combatants@.len() - j,
    {
        let mut c = world.combatants[j];
        assert(c.wf());
        let mut sprite = c.sprite;
        sprite.animate(dt);
        c.sprite = sprite;
        world.combatants.set(j, c);
        j = j + 1;
    }
}

} // verus!
