//! Points, angles, headings and the integer arithmetic of motion and contact.
use vstd::arithmetic::div_mod::lemma_fundamental_div_mod_converse;
use vstd::prelude::*;

verus! {

/// Angle units in a full turn (an angle unit is a millidegree).
pub const TURN: u32 = 360_000;

/// Angle units in half a turn.
pub const HALF_TURN: u32 = 180_000;

/// The length of a heading vector: a heading holds a unit vector times this.
pub const HEADING_ONE: i32 = 1000;

/// Sub-units per arena unit. Positions are kept in sub-units, so that a
/// heading component (scaled by `HEADING_ONE`) times a speed (arena units per
/// second) times a time (milliseconds) is a distance in sub-units, exactly.
pub const SUBUNITS: i64 = 1_000_000;

/// The largest half extent of an arena, in arena units.
pub const ARENA_LIMIT: i64 = 0xffff_ffff;

/// A bound on the distance covered along one component in one step.
pub const TRAVEL_LIMIT: i128 = 0x1000_0000_0000_0000_0000;

/// A bound on the coordinates that contact tests take.
pub const REACH_LIMIT: i128 = 0x1_0000_0000_0000_0000_0000;

/// A bound on the contact distances that contact tests take.
pub const CONTACT_LIMIT: i128 = 0x40_0000_0000_0000;

/// A position in the arena, in sub-units.
#[derive(Clone, Copy, Debug, PartialEq, Eq, Structural)]
pub struct Point {
    pub x: i64,
    pub y: i64,
}

/// Where an entity stands, which way it faces and how large it is.
#[derive(Clone, Copy, Debug, PartialEq, Eq, Structural)]
pub struct Transform {
    pub position: Point,
    /// Millidegrees counter-clockwise from +Y.
    pub rotation: u32,
    /// Uniform scale; it is also the entity's hitbox radius.
    pub scale: u32,
}

/// A direction of travel: a unit vector scaled by `HEADING_ONE`.
#[derive(Clone, Copy, Debug, PartialEq, Eq, Structural)]
pub struct Heading {
    pub x: i32,
    pub y: i32,
}

impl Point {
    /// The point at `(x, y)` in whole arena units.
    pub fn from_units(x: i32, y: i32) -> (r: Point)
        ensures
            r.x == x * SUBUNITS,
            r.y == y * SUBUNITS,
    {
        Point { x: x as i64 * SUBUNITS, y: y as i64 * SUBUNITS }
    }
}

impl Heading {
    /// Each component lies within one unit.
    pub open spec fn wf(&self) -> bool {
        -HEADING_ONE <= self.x <= HEADING_ONE && -HEADING_ONE <= self.y <= HEADING_ONE
    }
}

/// The arena, centred on the origin, given by its half extents in arena
/// units.
#[derive(Clone, Copy, Debug, PartialEq, Eq, Structural)]
pub struct Arena {
    pub half_width: i64,
    pub half_height: i64,
}

impl Arena {
    pub open spec fn wf(&self) -> bool {
        0 <= self.half_width <= ARENA_LIMIT && 0 <= self.half_height <= ARENA_LIMIT
    }

    /// Whether a point, in sub-units, lies beyond the arena's extents.
    pub open spec fn outside(&self, x: int, y: int) -> bool {
        let w = self.half_width * SUBUNITS;
        let h = self.half_height * SUBUNITS;
        x > w || x < -w || y > h || y < -h
    }

    /// Whether `(x, y)`, in sub-units, lies beyond the arena's extents.
    pub fn is_outside(&self, x: i128, y: i128) -> (r: bool)
        requires
            self.wf(),
        ensures
            r == self.outside(x as int, y as int),
    {
        let w: i128 = self.half_width as i128 * SUBUNITS as i128;
        let h: i128 = self.half_height as i128 * SUBUNITS as i128;
        x > w || x < -w || y > h || y < -h
    }
}

/// `a` taken into `[0, TURN)`.
pub open spec fn wrap_angle(a: int) -> int {
    a % (TURN as int)
}

/// The signed turn of least magnitude that takes angle `from` to angle `to`,
/// in `(-HALF_TURN, HALF_TURN]`; positive is counter-clockwise.
pub open spec fn shortest_turn(from: int, to: int) -> int {
    let d = to - from;
    if d > HALF_TURN {
        d - TURN
    } else if d <= -(HALF_TURN as int) {
        d + TURN
    } else {
        d
    }
}

/// The distance in sub-units covered along one heading component at `speed`
/// arena units per second for `dt` milliseconds.
pub open spec fn travel(component: int, speed: int, dt: int) -> int {
    component * speed * dt
}

/// The squared distance between two points.
pub open spec fn dist_sq(ax: int, ay: int, bx: int, by: int) -> int {
    (ax - bx) * (ax - bx) + (ay - by) * (ay - by)
}

/// Turns angle `a` (in `[0, TURN)`) by `delta`, at most a full turn either way.
pub fn rotate_angle(a: u32, delta: i64) -> (r: u32)
    requires
        a < TURN,
        -(TURN as int) <= delta <= TURN,
    ensures
        r == wrap_angle(a + delta),
        r < TURN,
{
    let s: i64 = a as i64 + delta;
    if s < 0 {
        proof {
            lemma_fundamental_div_mod_converse(a + delta, TURN as int, -1, s + TURN);
        }
        (s + TURN as i64) as u32
    } else if s >= TURN as i64 {
        proof {
            lemma_fundamental_div_mod_converse(a + delta, TURN as int, 1, s - TURN);
        }
        (s - TURN as i64) as u32
    } else {
        proof {
            lemma_fundamental_div_mod_converse(a + delta, TURN as int, 0, s as int);
        }
        s as u32
    }
}

/// The signed turn of least magnitude from `from` to `to`.
pub fn turn_toward(from: u32, to: u32) -> (r: i64)
    requires
        from < TURN,
        to < TURN,
    ensures
        r == shortest_turn(from as int, to as int),
        -(HALF_TURN as int) < r <= HALF_TURN,
        wrap_angle(from + r) == to,
{
    let d: i64 = to as i64 - from as i64;
    let r: i64 = if d > HALF_TURN as i64 {
        d - TURN as i64
    } else if d <= -(HALF_TURN as i64) {
        d + TURN as i64
    } else {
        d
    };
    proof {
        if d > HALF_TURN as i64 {
            lemma_fundamental_div_mod_converse(from + r, TURN as int, -1, to as int);
        } else if d <= -(HALF_TURN as i64) {
            lemma_fundamental_div_mod_converse(from + r, TURN as int, 1, to as int);
        } else {
            lemma_fundamental_div_mod_converse(from + r, TURN as int, 0, to as int);
        }
    }
    r
}

/// The distance covered along one heading component, as `travel` states.
pub fn travel_along(component: i32, speed: u32, dt: u32) -> (r: i128)
    requires
        -HEADING_ONE <= component <= HEADING_ONE,
    ensures
        r == travel(component as int, speed as int, dt as int),
        -TRAVEL_LIMIT < r < TRAVEL_LIMIT,
{
    assert(-1000 * 0xffff_ffffi128 <= component * speed <= 1000 * 0xffff_ffffi128)
        by (nonlinear_arith)
        requires
            -1000 <= component <= 1000,
            0 <= speed <= 0xffff_ffffu32,
    ;
    assert(-1000 * 0xffff_ffffi128 * 0xffff_ffffi128 <= component * speed * dt <= 1000
        * 0xffff_ffffi128 * 0xffff_ffffi128) by (nonlinear_arith)
        requires
            -1000 * 0xffff_ffffi128 <= component * speed <= 1000 * 0xffff_ffffi128,
            0 <= dt <= 0xffff_ffffu32,
    ;
    component as i128 * speed as i128 * dt as i128
}

/// Whether the point `(ax, ay)` lies within `reach` of `b` (inclusive).
pub fn within_reach(ax: i128, ay: i128, b: Point, reach: i128) -> (r: bool)
    requires
        -REACH_LIMIT < ax < REACH_LIMIT,
        -REACH_LIMIT < ay < REACH_LIMIT,
        0 <= reach <= CONTACT_LIMIT,
    ensures
        r == (dist_sq(ax as int, ay as int, b.x as int, b.y as int) <= reach * reach),
{
    let dx: i128 = ax - b.x as i128;
    let dy: i128 = ay - b.y as i128;
    let ux: i128 = if dx < 0 { -dx } else { dx };
    let uy: i128 = if dy < 0 { -dy } else { dy };
    let rr: i128 = reach;
    proof {
        assert(dx * dx == ux * ux) by (nonlinear_arith)
            requires ux == dx || ux == -dx;
        assert(dy * dy == uy * uy) by (nonlinear_arith)
            requires uy == dy || uy == -dy;
    }
    if ux > rr || uy > rr {
        proof {
            assert(ux * ux + uy * uy > rr * rr) by (nonlinear_arith)
                requires
                    ux > rr || uy > rr,
                    ux >= 0,
                    uy >= 0,
                    rr >= 0,
            ;
        }
        false
    } else {
        proof {
            assert(ux * ux <= rr * rr) by (nonlinear_arith)
                requires 0 <= ux <= rr;
            assert(uy * uy <= rr * rr) by (nonlinear_arith)
                requires 0 <= uy <= rr;
            assert(rr * rr <= CONTACT_LIMIT * CONTACT_LIMIT) by (nonlinear_arith)
                requires 0 <= rr <= CONTACT_LIMIT;
        }
        ux * ux + uy * uy <= rr * rr
    }
}

} // verus!
