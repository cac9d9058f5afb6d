//! Integer world geometry: coordinates, truncating division, square roots,
//! fixed-point directions and millidegree trigonometry.

use vstd::prelude::*;

verus! {

/// Width of the playing field, in world units.
pub const WIDTH: i64 = 800;
/// Height of the playing field, in world units.
pub const HEIGHT: i64 = 600;

/// Bound on the geometric scalars a level author may write (margins, radii,
/// spacings, speeds, explicit centers and screen-like extents).
pub const GEOM_LIMIT: i64 = 1_000_000;

/// Bound on every coordinate a formation expansion can produce; wide enough
/// for any placement of `GEOM_LIMIT`-sized inputs, and small enough that a
/// difference of two such coordinates can still be squared in an `i64`.
pub const POS_LIMIT: i64 = 2_000_000_000;

/// Fixed-point scale of unit direction vectors: a direction of length 1 is
/// stored as a vector of norm `DIR_SCALE`.
pub const DIR_SCALE: i64 = 65536;

/// Angles are measured in millidegrees; a full turn.
pub const TURN_MDEG: i64 = 360_000;
/// Half a turn in millidegrees.
pub const HALF_TURN_MDEG: i64 = 180_000;
/// A quarter turn in millidegrees.
pub const QUARTER_TURN_MDEG: i64 = 90_000;

/// A point or displacement in the world plane.
#[derive(Clone, Copy, Debug, PartialEq, Eq, Structural)]
pub struct Vec2 {
    pub x: i64,
    pub y: i64,
}

impl Vec2 {
    /// Builds the vector with the given components.
    pub fn new(x: i64, y: i64) -> (v: Vec2)
        ensures
            v == (Vec2 { x, y }),
    {
        Vec2 { x, y }
    }

    /// Both components are within `b` of zero.
    pub open spec fn bounded(self, b: int) -> bool {
        -b <= self.x <= b && -b <= self.y <= b
    }
}

/// Truncating division (the quotient is rounded toward zero), the meaning of
/// `/` on hardware integers; `int` division in contracts is Euclidean, so the
/// two only agree on non-negative dividends.  A zero divisor yields zero.
pub open spec fn div_trunc(a: int, b: int) -> int {
    if b <= 0 {
        0
    } else if a >= 0 {
        a / b
    } else {
        -((-a) / b)
    }
}

/// Truncating division on machine integers.
pub fn div_trunc_i64(a: i64, b: i64) -> (q: i64)
    requires
        b > 0,
        a > i64::MIN,
    ensures
        q == div_trunc(a as int, b as int),
{
    let q = a.checked_div(b);
    proof {
        assert(q is Some);
        if a < 0 {
            assert((a as int) * -1 == -(a as int));
        }
    }
    q.unwrap()
}

/// `q` is the integer square root of `n`: the largest integer whose square
/// does not exceed `n`.
pub open spec fn is_isqrt(n: int, q: int) -> bool {
    q >= 0 && q * q <= n < (q + 1) * (q + 1)
}

/// Integer square root by bisection.
pub fn isqrt_i64(n: i64) -> (q: i64)
    requires
        0 <= n,
    ensures
        is_isqrt(n as int, q as int),
        q == isqrt_val(n as int),
{
    proof {
        lemma_isqrt_val_correct(n as int);
    }
    // Any root fits below 2^31.5, and (3_037_000_500)^2 > i64::MAX.
    let mut lo: i64 = 0;
    let mut hi: i64 = 3_037_000_499;
    proof {
        assert((hi + 1) * (hi + 1) > i64::MAX);
    }
    while lo < hi
        invariant
            0 <= lo <= hi <= 3_037_000_499,
            lo * lo <= n,
            (hi + 1) * (hi + 1) > n,
        decreases hi - lo,
    {
        let mid = lo + (hi - lo) / 2 + 1;
        proof {
            assert(lo < mid <= hi);
            assert(mid * mid <= 3_037_000_499i64 * 3_037_000_499i64) by (nonlinear_arith)
                requires
                    0 <= mid <= 3_037_000_499,
            ;
        }
        if mid * mid <= n {
            lo = mid;
        } else {
            hi = mid - 1;
        }
    }
    proof {
        lemma_isqrt_unique(n as int, lo as int, isqrt_val(n as int));
    }
    lo
}

/// The integer square root as a total mathematical function.
pub open spec fn isqrt_val(n: int) -> int
    decreases n,
{
    if n <= 0 {
        0
    } else {
        let r = isqrt_val(n - 1);
        if (r + 1) * (r + 1) <= n {
            r + 1
        } else {
            r
        }
    }
}

/// `isqrt_val` satisfies the square-root characterization.
pub proof fn lemma_isqrt_val_correct(n: int)
    requires
        0 <= n,
    ensures
        is_isqrt(n, isqrt_val(n)),
    decreases n,
{
    if n > 0 {
        lemma_isqrt_val_correct(n - 1);
        let r = isqrt_val(n - 1);
        assert((r + 1) * (r + 1) + 1 <= (r + 2) * (r + 2)) by (nonlinear_arith)
            requires
                r >= 0,
        ;
    }
}

/// Two integers satisfying the square-root characterization of `n` coincide.
pub proof fn lemma_isqrt_unique(n: int, q1: int, q2: int)
    requires
        is_isqrt(n, q1),
        is_isqrt(n, q2),
    ensures
        q1 == q2,
{
    assert(q1 == q2) by (nonlinear_arith)
        requires
            q1 >= 0 && q1 * q1 <= n < (q1 + 1) * (q1 + 1),
            q2 >= 0 && q2 * q2 <= n < (q2 + 1) * (q2 + 1),
    ;
}

/// Any integer whose square is below `n` is at most the square root of `n`.
pub proof fn lemma_isqrt_dominates(n: int, d: int)
    requires
        0 <= n,
        d * d <= n,
    ensures
        isqrt_val(n) >= vstd::math::abs(d),
{
    lemma_isqrt_val_correct(n);
    let q = isqrt_val(n);
    assert(q >= vstd::math::abs(d)) by (nonlinear_arith)
        requires
            d * d <= n,
            q >= 0 && q * q <= n < (q + 1) * (q + 1),
    ;
}

/// The remainder of `a` modulo a full turn, normalized into
/// `[0, TURN_MDEG)`.
pub open spec fn angle_norm(a: int) -> int {
    a % (TURN_MDEG as int)
}

/// Reduces an angle in millidegrees into `[0, TURN_MDEG)`.
pub fn angle_norm_i64(a: i64) -> (m: i64)
    requires
        i64::MIN < a,
    ensures
        m == angle_norm(a as int),
        0 <= m < TURN_MDEG,
{
    let q = div_trunc_i64(a, TURN_MDEG);
    proof {
        vstd::arithmetic::div_mod::lemma_fundamental_div_mod(a as int, TURN_MDEG as int);
        if a < 0 {
            vstd::arithmetic::div_mod::lemma_fundamental_div_mod(-(a as int), TURN_MDEG as int);
            vstd::arithmetic::div_mod::lemma_mod_bound(-(a as int), TURN_MDEG as int);
            vstd::arithmetic::div_mod::lemma_mod_bound(a as int, TURN_MDEG as int);
        } else {
            vstd::arithmetic::div_mod::lemma_mod_bound(a as int, TURN_MDEG as int);
        }
    }
    let r = a - q * TURN_MDEG;
    if r < 0 {
        r + TURN_MDEG
    } else {
        r
    }
}

/// For a non-negative dividend the truncating quotient lies between zero and
/// any `c` with `a <= b * c`.
pub proof fn lemma_div_trunc_le(a: int, b: int, c: int)
    requires
        b > 0,
        0 <= a,
        a <= b * c,
    ensures
        0 <= div_trunc(a, b) <= c,
{
    vstd::arithmetic::div_mod::lemma_div_pos_is_pos(a, b);
    vstd::arithmetic::div_mod::lemma_div_is_ordered(a, b * c, b);
    vstd::arithmetic::div_mod::lemma_div_multiples_vanish(c, b);
}

/// Magnitude bound of a truncating quotient: `|a / b| <= m` whenever
/// `|a| <= b * m`.
pub proof fn lemma_div_trunc_abs_le(a: int, b: int, m: int)
    requires
        b > 0,
        -(b * m) <= a <= b * m,
    ensures
        -m <= div_trunc(a, b) <= m,
{
    if a >= 0 {
        lemma_div_trunc_le(a, b, m);
    } else {
        lemma_div_trunc_le(-a, b, m);
    }
}

/// A truncating quotient multiplied back by at most its divisor stays
/// within the dividend's bound: `|a / b * i| <= m` for `0 <= i <= b` and
/// `|a| <= m`.
pub proof fn lemma_div_trunc_mul_le(a: int, b: int, i: int, m: int)
    requires
        b > 0,
        0 <= i <= b,
        -m <= a <= m,
    ensures
        -m <= div_trunc(a, b) * i <= m,
{
    let p = if a >= 0 {
        a
    } else {
        -a
    };
    let q0 = p / b;
    vstd::arithmetic::div_mod::lemma_fundamental_div_mod(p, b);
    vstd::arithmetic::div_mod::lemma_mod_bound(p, b);
    vstd::arithmetic::div_mod::lemma_div_pos_is_pos(p, b);
    vstd::arithmetic::mul::lemma_mul_is_commutative(b, q0);
    assert(0 <= q0 * i <= p && div_trunc(a, b) * i == if a >= 0 {
        q0 * i
    } else {
        -(q0 * i)
    }) by (nonlinear_arith)
        requires
            0 <= q0,
            0 <= i <= b,
            q0 * b <= p,
            0 <= p,
            div_trunc(a, b) == if a >= 0 {
                q0
            } else {
                -q0
            },
    ;
}

/// Numerator of the half-turn sine approximation: `4 x (H - x)`, scaled.
pub open spec fn sin_half_num(x: int) -> int {
    4 * x * (HALF_TURN_MDEG - x) * DIR_SCALE
}

/// Denominator of the half-turn sine approximation: `5 H^2 / 4 - x (H - x)`.
pub open spec fn sin_half_den(x: int) -> int {
    40_500_000_000 - x * (HALF_TURN_MDEG - x)
}

/// Rational approximation of the sine over the first half turn, scaled by
/// `DIR_SCALE`; exact at `0`, the quarter turn and the half turn.
pub open spec fn sin_half(x: int) -> int {
    div_trunc(sin_half_num(x), sin_half_den(x))
}

/// Sine of an angle in millidegrees, as a fixed-point value scaled by
/// `DIR_SCALE`; the second half turn mirrors the first, negated.
pub open spec fn sin_mdeg(a: int) -> int {
    let m = angle_norm(a);
    if m <= HALF_TURN_MDEG {
        sin_half(m)
    } else {
        -sin_half(m - HALF_TURN_MDEG)
    }
}

/// Cosine of an angle in millidegrees: the sine a quarter turn later.
pub open spec fn cos_mdeg(a: int) -> int {
    sin_mdeg(a + QUARTER_TURN_MDEG)
}

/// The chord product `x (H - x)` stays within the peak value `H^2 / 4`.
proof fn lemma_chord_product_bounds(x: int)
    requires
        0 <= x <= HALF_TURN_MDEG,
    ensures
        0 <= x * (HALF_TURN_MDEG - x) <= 8_100_000_000,
{
    assert(0 <= x * (180_000 - x) <= 8_100_000_000) by (nonlinear_arith)
        requires
            0 <= x <= 180_000,
    ;
}

/// The sine approximation is bounded by one, that is by `DIR_SCALE`.
pub proof fn lemma_sin_half_bounds(x: int)
    requires
        0 <= x <= HALF_TURN_MDEG,
    ensures
        0 <= sin_half(x) <= DIR_SCALE,
{
    lemma_chord_product_bounds(x);
    let p = x * (HALF_TURN_MDEG - x);
    assert(sin_half_num(x) == 4 * p * DIR_SCALE) by (nonlinear_arith)
        requires
            p == x * (HALF_TURN_MDEG - x),
    ;
    assert(4 * p * 65536 <= (40_500_000_000 - p) * 65536) by (nonlinear_arith)
        requires
            0 <= p <= 8_100_000_000,
    ;
    lemma_div_trunc_le(sin_half_num(x), sin_half_den(x), DIR_SCALE as int);
}

/// The sine of any angle lies within `[-DIR_SCALE, DIR_SCALE]`.
pub proof fn lemma_sin_mdeg_bounds(a: int)
    ensures
        -DIR_SCALE <= sin_mdeg(a) <= DIR_SCALE,
{
    vstd::arithmetic::div_mod::lemma_mod_bound(a, TURN_MDEG as int);
    let m = angle_norm(a);
    if m <= HALF_TURN_MDEG {
        lemma_sin_half_bounds(m);
    } else {
        lemma_sin_half_bounds(m - HALF_TURN_MDEG);
    }
}

/// Sine over the first half turn (angle in millidegrees within
/// `[0, HALF_TURN_MDEG]`), scaled by `DIR_SCALE`.
fn sin_half_i64(x: i64) -> (s: i64)
    requires
        0 <= x <= HALF_TURN_MDEG,
    ensures
        s == sin_half(x as int),
        0 <= s <= DIR_SCALE,
{
    proof {
        lemma_chord_product_bounds(x as int);
        lemma_sin_half_bounds(x as int);
    }
    let p = x * (HALF_TURN_MDEG - x);
    let num = 4 * p * DIR_SCALE;
    proof {
        assert(num == sin_half_num(x as int)) by (nonlinear_arith)
            requires
                p == x * (HALF_TURN_MDEG - x),
                num == 4 * p * DIR_SCALE,
        ;
    }
    let den = 40_500_000_000 - p;
    div_trunc_i64(num, den)
}

/// Sine of an angle in millidegrees, scaled by `DIR_SCALE`.
pub fn sin_mdeg_i64(a: i64) -> (s: i64)
    requires
        i64::MIN < a,
    ensures
        s == sin_mdeg(a as int),
        -DIR_SCALE <= s <= DIR_SCALE,
{
    let m = angle_norm_i64(a);
    if m <= HALF_TURN_MDEG {
        sin_half_i64(m)
    } else {
        let s = sin_half_i64(m - HALF_TURN_MDEG);
        -s
    }
}

/// Cosine of an angle in millidegrees, scaled by `DIR_SCALE`.
pub fn cos_mdeg_i64(a: i64) -> (c: i64)
    requires
        i64::MIN < a,
        a + QUARTER_TURN_MDEG <= i64::MAX,
    ensures
        c == cos_mdeg(a as int),
        -DIR_SCALE <= c <= DIR_SCALE,
{
    sin_mdeg_i64(a + QUARTER_TURN_MDEG)
}

/// Largest magnitude a vector may have before its squared norm leaves `i64`.
pub const NORM_LIMIT: i64 = 2_100_000_000;

/// Squared Euclidean norm.
pub open spec fn norm_sq(v: Vec2) -> int {
    v.x * v.x + v.y * v.y
}

/// Euclidean norm, rounded down to an integer.
pub open spec fn norm_of(v: Vec2) -> int {
    isqrt_val(norm_sq(v))
}

/// The zero vector.
pub open spec fn is_zero_vec(v: Vec2) -> bool {
    v.x == 0 && v.y == 0
}

/// The norm dominates the magnitude of each component.
pub proof fn lemma_norm_dominates(v: Vec2)
    ensures
        norm_of(v) >= vstd::math::abs(v.x as int),
        norm_of(v) >= vstd::math::abs(v.y as int),
        norm_of(v) >= 0,
{
    assert(v.x * v.x <= norm_sq(v) && v.y * v.y <= norm_sq(v) && norm_sq(v) >= 0)
        by (nonlinear_arith);
    lemma_isqrt_dominates(norm_sq(v), v.x as int);
    lemma_isqrt_dominates(norm_sq(v), v.y as int);
}

/// Euclidean norm of a vector, rounded down.
pub fn vec_norm(v: Vec2) -> (n: i64)
    requires
        v.bounded(NORM_LIMIT as int),
    ensures
        n == norm_of(v),
        n >= vstd::math::abs(v.x as int),
        n >= vstd::math::abs(v.y as int),
        n >= 0,
{
    proof {
        assert(0 <= v.x * v.x + v.y * v.y <= i64::MAX && 0 <= v.x * v.x <= i64::MAX && 0 <= v.y
            * v.y <= i64::MAX) by (nonlinear_arith)
            requires
                -NORM_LIMIT <= v.x <= NORM_LIMIT,
                -NORM_LIMIT <= v.y <= NORM_LIMIT,
        ;
        lemma_norm_dominates(v);
    }
    isqrt_i64(v.x * v.x + v.y * v.y)
}

/// One component of a vector rescaled to a target length: `c * len / norm`.
pub open spec fn rescaled(c: int, len: int, norm: int) -> int {
    div_trunc(c * len, norm)
}

/// Direction of travel when aiming from `from` toward `to` at the given
/// speed: the difference rescaled to length `speed`.  Aiming at one's own
/// position is degenerate; the fallback direction is straight down the
/// screen, `(0, speed)`.
pub open spec fn aim_of(from: Vec2, to: Vec2, speed: int) -> (int, int) {
    let dx = to.x - from.x;
    let dy = to.y - from.y;
    if dx == 0 && dy == 0 {
        (0, speed)
    } else {
        let n = isqrt_val(dx * dx + dy * dy);
        (div_trunc(dx * speed, n), div_trunc(dy * speed, n))
    }
}

/// A vector of length `speed` (rounded toward zero) pointing from `from`
/// toward `to`, with the documented downward fallback when the two points
/// coincide.
pub fn aim_from_to(from: Vec2, to: Vec2, speed: i64) -> (r: Vec2)
    requires
        from.bounded(POS_LIMIT as int),
        to.bounded(GEOM_LIMIT as int),
        -POS_LIMIT <= speed <= POS_LIMIT,
    ensures
        r.x == aim_of(from, to, speed as int).0,
        r.y == aim_of(from, to, speed as int).1,
        r.bounded(vstd::math::abs(speed as int) as int),
{
    let dx = to.x - from.x;
    let dy = to.y - from.y;
    if dx == 0 && dy == 0 {
        Vec2 { x: 0, y: speed }
    } else {
        let d = Vec2 { x: dx, y: dy };
        let n = vec_norm(d);
        proof {
            assert(n >= 1);
            assert(-(n * vstd::math::abs(speed as int)) <= dx * speed <= n * vstd::math::abs(
                speed as int,
            ) && -(n * vstd::math::abs(speed as int)) <= dy * speed <= n * vstd::math::abs(
                speed as int,
            ) && -i64::MAX <= dx * speed <= i64::MAX && -i64::MAX <= dy * speed <= i64::MAX)
                by (nonlinear_arith)
                requires
                    vstd::math::abs(dx as int) <= n,
                    vstd::math::abs(dy as int) <= n,
                    -POS_LIMIT - GEOM_LIMIT <= dx <= POS_LIMIT + GEOM_LIMIT,
                    -POS_LIMIT - GEOM_LIMIT <= dy <= POS_LIMIT + GEOM_LIMIT,
                    -POS_LIMIT <= speed <= POS_LIMIT,
                    n >= 1,
            ;
            lemma_div_trunc_abs_le(dx * speed, n as int, vstd::math::abs(speed as int) as int);
            lemma_div_trunc_abs_le(dy * speed, n as int, vstd::math::abs(speed as int) as int);
        }
        Vec2 { x: div_trunc_i64(dx * speed, n), y: div_trunc_i64(dy * speed, n) }
    }
}

/// Unit direction of `v`, as a fixed-point vector scaled by `DIR_SCALE`;
/// the zero vector falls back to straight down the screen.
pub open spec fn unit_of(v: Vec2) -> (int, int) {
    if is_zero_vec(v) {
        (0, DIR_SCALE as int)
    } else {
        let n = norm_of(v);
        (div_trunc(v.x * DIR_SCALE, n), div_trunc(v.y * DIR_SCALE, n))
    }
}

/// Unit direction of `v` scaled by `DIR_SCALE`, with the documented downward
/// fallback for the zero vector.
pub fn unit_scaled(v: Vec2) -> (u: Vec2)
    requires
        v.bounded(NORM_LIMIT as int),
    ensures
        u.x == unit_of(v).0,
        u.y == unit_of(v).1,
        u.bounded(DIR_SCALE as int),
{
    if v.x == 0 && v.y == 0 {
        Vec2 { x: 0, y: DIR_SCALE }
    } else {
        let n = vec_norm(v);
        proof {
            assert(n >= 1);
            assert(-(n * DIR_SCALE) <= v.x * DIR_SCALE <= n * DIR_SCALE && -(n * DIR_SCALE)
                <= v.y * DIR_SCALE <= n * DIR_SCALE && -i64::MAX <= v.x * DIR_SCALE <= i64::MAX
                && -i64::MAX <= v.y * DIR_SCALE <= i64::MAX) by (nonlinear_arith)
                requires
                    vstd::math::abs(v.x as int) <= n,
                    vstd::math::abs(v.y as int) <= n,
                    -NORM_LIMIT <= v.x <= NORM_LIMIT,
                    -NORM_LIMIT <= v.y <= NORM_LIMIT,
                    n >= 1,
            ;
            lemma_div_trunc_abs_le(v.x * DIR_SCALE, n as int, DIR_SCALE as int);
            lemma_div_trunc_abs_le(v.y * DIR_SCALE, n as int, DIR_SCALE as int);
        }
        Vec2 { x: div_trunc_i64(v.x * DIR_SCALE, n), y: div_trunc_i64(v.y * DIR_SCALE, n) }
    }
}

/// Components of `v` rotated by `a` millidegrees:
/// `(cos a * x - sin a * y, sin a * x + cos a * y)`, descaled.
pub open spec fn rotated(v: Vec2, a: int) -> (int, int) {
    let c = cos_mdeg(a);
    let s = sin_mdeg(a);
    (div_trunc(c * v.x - s * v.y, DIR_SCALE as int), div_trunc(s * v.x + c * v.y, DIR_SCALE as int))
}

/// Rotates `v` by `a` millidegrees, using the fixed-point trigonometry.
pub fn rotate_vec(v: Vec2, a: i64) -> (r: Vec2)
    requires
        v.bounded(POS_LIMIT as int),
        -TURN_MDEG <= a <= TURN_MDEG,
    ensures
        r.x == rotated(v, a as int).0,
        r.y == rotated(v, a as int).1,
        r.bounded(2 * POS_LIMIT as int),
{
    let c = cos_mdeg_i64(a);
    let s = sin_mdeg_i64(a);
    proof {
        assert(-(DIR_SCALE * (2 * POS_LIMIT)) <= c * v.x - s * v.y <= DIR_SCALE * (2 * POS_LIMIT)
            && -(DIR_SCALE * (2 * POS_LIMIT)) <= s * v.x + c * v.y <= DIR_SCALE * (2 * POS_LIMIT)
            && -i64::MAX <= c * v.x <= i64::MAX && -i64::MAX <= s * v.y <= i64::MAX && -i64::MAX
            <= s * v.x <= i64::MAX && -i64::MAX <= c * v.y <= i64::MAX && -i64::MAX <= c * v.x - s
            * v.y <= i64::MAX && -i64::MAX <= s * v.x + c * v.y <= i64::MAX) by (nonlinear_arith)
            requires
                -DIR_SCALE <= c <= DIR_SCALE,
                -DIR_SCALE <= s <= DIR_SCALE,
                -POS_LIMIT <= v.x <= POS_LIMIT,
                -POS_LIMIT <= v.y <= POS_LIMIT,
        ;
        lemma_div_trunc_abs_le(c * v.x - s * v.y, DIR_SCALE as int, 2 * POS_LIMIT as int);
        lemma_div_trunc_abs_le(s * v.x + c * v.y, DIR_SCALE as int, 2 * POS_LIMIT as int);
    }
    Vec2 {
        x: div_trunc_i64(c * v.x - s * v.y, DIR_SCALE),
        y: div_trunc_i64(s * v.x + c * v.y, DIR_SCALE),
    }
}

} // verus!
