//! Plain data attached to entities: drawn shapes, colors, motion and the
//! particle timer.

use vstd::prelude::*;

use crate::geometry::{div_trunc, Vec2, GEOM_LIMIT, POS_LIMIT};

verus! {

/// Time limit (in milliseconds of simulation time) under which all clock
/// arithmetic stays inside an `i64`.
pub const TIME_LIMIT: i64 = 0x4_0000_0000_0000;

/// A circle drawn on screen, and the collision shape of balls and shots.
#[derive(Clone, Copy, Debug, PartialEq, Eq, Structural)]
pub struct Circle {
    pub radius: i64,
}

impl Circle {
    /// A circle of the given radius.
    pub fn with_radius(radius: i64) -> (c: Circle)
        ensures
            c == (Circle { radius }),
    {
        Circle { radius }
    }
}

/// Position of an entity in the world.
#[derive(Clone, Copy, Debug, PartialEq, Eq, Structural)]
pub struct Transform(pub Vec2);

impl Transform {
    /// A transform at the given coordinates.
    pub fn new(x: i64, y: i64) -> (t: Transform)
        ensures
            t == Transform(Vec2 { x, y }),
    {
        Transform(Vec2 { x, y })
    }
}

/// Displacement an entity travels each simulation tick.
#[derive(Clone, Copy, Debug, PartialEq, Eq, Structural)]
pub struct Moving(pub Vec2);

impl Moving {
    /// A velocity with the given components.
    pub fn new(x: i64, y: i64) -> (m: Moving)
        ensures
            m == Moving(Vec2 { x, y }),
    {
        Moving(Vec2 { x, y })
    }
}

/// Two circles touch once the gap between their borders closes to within
/// `threshold`; a negative effective reach never collides.
pub open spec fn collides_spec(t1: Transform, c1: Circle, t2: Transform, c2: Circle, threshold: int) -> bool {
    let reach = c1.radius + c2.radius - threshold;
    let r = if reach >= 0 { reach } else { 0 };
    let dx = t1.0.x - t2.0.x;
    let dy = t1.0.y - t2.0.y;
    dx * dx + dy * dy <= r * r
}

/// Whether two circles overlap, leaving a grace gap of `threshold`.
pub fn collides(t1: &Transform, c1: &Circle, t2: &Transform, c2: &Circle, threshold: i64) -> (b: bool)
    requires
        t1.0.bounded(POS_LIMIT as int / 2),
        t2.0.bounded(POS_LIMIT as int / 2),
        0 <= c1.radius <= GEOM_LIMIT,
        0 <= c2.radius <= GEOM_LIMIT,
        -GEOM_LIMIT <= threshold <= GEOM_LIMIT,
    ensures
        b == collides_spec(*t1, *c1, *t2, *c2, threshold as int),
{
    let reach = c1.radius + c2.radius - threshold;
    let r: i64 = if reach >= 0 {
        reach
    } else {
        0
    };
    let dx = t1.0.x - t2.0.x;
    let dy = t1.0.y - t2.0.y;
    proof {
        assert(0 <= dx * dx <= i64::MAX && 0 <= dy * dy <= i64::MAX && dx * dx + dy * dy
            <= i64::MAX && 0 <= r * r <= i64::MAX) by (nonlinear_arith)
            requires
                -POS_LIMIT <= dx <= POS_LIMIT,
                -POS_LIMIT <= dy <= POS_LIMIT,
                0 <= r <= 3 * GEOM_LIMIT,
        ;
    }
    dx * dx + dy * dy <= r * r
}

/// A color in per-mille intensities; `1000` is full intensity.
#[derive(Clone, Copy, Debug, PartialEq, Eq, Structural)]
pub struct Color {
    pub r: i64,
    pub g: i64,
    pub b: i64,
    pub a: i64,
}

impl Color {
    /// A fully opaque color.
    pub fn rgb(r: i64, g: i64, b: i64) -> (c: Color)
        ensures
            c == (Color { r, g, b, a: 1000i64 }),
    {
        Color { r, g, b, a: 1000 }
    }

    /// A color with an explicit alpha channel.
    pub fn rgba(r: i64, g: i64, b: i64, a: i64) -> (c: Color)
        ensures
            c == (Color { r, g, b, a }),
    {
        Color { r, g, b, a }
    }

    /// The four channels in drawing order.
    pub fn inner(&self) -> (v: [i64; 4])
        ensures
            v@ == seq![self.r, self.g, self.b, self.a],
    {
        let v = [self.r, self.g, self.b, self.a];
        proof {
            assert(v@ =~= seq![self.r, self.g, self.b, self.a]);
        }
        v
    }
}

/// A triangle drawn on screen; the telegraph indicator of a pending spawn.
#[derive(Clone, Copy, Debug, PartialEq, Eq, Structural)]
pub struct Triangle {
    pub a: Vec2,
    pub b: Vec2,
    pub c: Vec2,
}

impl Triangle {
    /// A triangle over the three given corners.
    pub fn new(a: Vec2, b: Vec2, c: Vec2) -> (t: Triangle)
        ensures
            t == (Triangle { a, b, c }),
    {
        Triangle { a, b, c }
    }
}

/// The player's ball; a tag with no data.
#[derive(Clone, Copy, Debug, Default, PartialEq, Eq, Structural)]
pub struct Player;

/// A cosmetic particle that fades out over its lifetime.
#[derive(Clone, Copy, Debug, PartialEq, Eq, Structural)]
pub struct Particle {
    /// Millisecond timestamp of creation.
    pub created: i64,
    /// Lifetime in milliseconds; positive.
    pub lifetime: i64,
}

/// Elapsed share of a particle's lifetime in per-mille, capped at `1000`
/// (but not clamped below zero, matching a clock that ran backwards).
pub open spec fn percent_mille(created: int, lifetime: int, now: int) -> int {
    let p = div_trunc((now - created) * 1000, lifetime);
    if p >= 1000 {
        1000
    } else {
        p
    }
}

impl Particle {
    /// How much of this particle's lifetime has elapsed, in per-mille.
    pub fn percent(&self, now: i64) -> (p: i64)
        requires
            0 < self.lifetime <= TIME_LIMIT,
            -TIME_LIMIT <= self.created <= TIME_LIMIT,
            -TIME_LIMIT <= now <= TIME_LIMIT,
        ensures
            p == percent_mille(self.created as int, self.lifetime as int, now as int),
            p <= 1000,
    {
        let num = (now - self.created) * 1000;
        let p = crate::geometry::div_trunc_i64(num, self.lifetime);
        if p >= 1000 {
            1000
        } else {
            p
        }
    }
}

} // verus!
