//! Line placement: where `amount` circles of a given radius sit along one
//! screen axis, under each placement policy.

use vstd::prelude::*;

use crate::geometry::{div_trunc, div_trunc_i64, GEOM_LIMIT, POS_LIMIT};
use crate::reader::{ConfigError, HorizontalLinePlacement};

verus! {

/// A missing margin means no margin.
pub open spec fn margin_or_zero(m: Option<i64>) -> int {
    match m {
        Some(v) => v as int,
        None => 0,
    }
}

/// `|a|` as a plain integer.
pub open spec fn abs_int(a: int) -> int {
    if a >= 0 {
        a
    } else {
        -a
    }
}

/// The space left for interior points once both edge circles are anchored:
/// the extent minus both margins and two circle diameters.
pub open spec fn distribute_w(margin: int, radius: int, extent: int) -> int {
    extent - 2 * margin - 4 * radius
}

/// Signed spacing between the borders of adjacent distributed circles
/// (rounded toward zero): the leftover width shared by the `amount - 1`
/// gaps.
pub open spec fn distribute_step(amount: int, margin: int, radius: int, extent: int) -> int {
    let n = amount - 2;
    div_trunc(distribute_w(margin, radius, extent) - 2 * radius * n, n + 1)
}

/// Center of the `i`-th of `amount` circles distributed along an extent:
/// one circle sits at the middle, two or more anchor the first and last at
/// the margins and space the rest evenly by `distribute_step`.
pub open spec fn distribute_pos(i: int, amount: int, margin: int, radius: int, extent: int) -> int {
    if amount == 1 {
        div_trunc(extent, 2)
    } else if i == 0 {
        margin + radius
    } else if i == amount - 1 {
        extent - margin - radius
    } else {
        distribute_step(amount, margin, radius, extent) * i + (2 * i + 1) * radius + margin
    }
}

/// The chevron offset of the `i`-th of `amount` points of a `V` placement:
/// `spacing` per step of distance from the center index.
pub open spec fn v_offset(i: int, amount: int, spacing: int) -> int {
    abs_int(amount / 2 - i) * spacing
}

/// Both coordinates of the `i`-th of `amount` circles placed along a line
/// of the given extent at coordinate `base` on the other axis.
pub open spec fn line_pos(
    p: HorizontalLinePlacement,
    i: int,
    amount: int,
    base: int,
    radius: int,
    extent: int,
) -> (int, int) {
    match p {
        HorizontalLinePlacement::Distribute { margin } => (
            distribute_pos(i, amount, margin_or_zero(margin), radius, extent),
            base,
        ),
        HorizontalLinePlacement::FromLeft { margin, spacing } => (
            margin_or_zero(margin) + i * (spacing + 2 * radius) + radius,
            base,
        ),
        HorizontalLinePlacement::FromRight { margin, spacing } => (
            extent - (margin_or_zero(margin) + i * (spacing + 2 * radius) + radius),
            base,
        ),
        HorizontalLinePlacement::V { margin, spacing } => (
            distribute_pos(i, amount, margin_or_zero(margin), radius, extent),
            base - v_offset(i, amount, spacing as int),
        ),
    }
}

/// A `V` placement needs an odd amount; zero points are an empty line, not
/// an error.
pub open spec fn line_rejects(p: HorizontalLinePlacement, amount: int) -> bool {
    p is V && amount > 0 && amount % 2 == 0
}

/// Centers of `amount` circles distributed between the margins.
fn distribute_coords(margin: i64, radius: i64, amount: u8, extent: i64) -> (v: Vec<i64>)
    requires
        1 <= amount,
        -GEOM_LIMIT <= margin <= GEOM_LIMIT,
        -GEOM_LIMIT <= radius <= GEOM_LIMIT,
        -GEOM_LIMIT <= extent <= GEOM_LIMIT,
    ensures
        v@.len() == amount,
        forall|i: int|
            0 <= i < amount ==> v@[i] == distribute_pos(
                i,
                amount as int,
                margin as int,
                radius as int,
                extent as int,
            ),
{
    let mut v: Vec<i64> = Vec::new();
    if amount == 1 {
        v.push(div_trunc_i64(extent, 2));
        return v;
    }
    v.push(margin + radius);
    let n: i64 = amount as i64 - 2;
    let w = extent - 2 * margin - 4 * radius;
    proof {
        assert(-600_000_000 <= 2 * radius as int * n <= 600_000_000) by (nonlinear_arith)
            requires
                -GEOM_LIMIT <= radius <= GEOM_LIMIT,
                0 <= n <= 253,
        ;
    }
    let dn = 2 * radius * n;
    proof {
        assert((w - dn) <= (n + 1) * 700_000_000 && -((n + 1) * 700_000_000) <= (w - dn))
            by (nonlinear_arith)
            requires
                -700_000_000 <= w - dn <= 700_000_000,
                0 <= n,
        ;
        crate::geometry::lemma_div_trunc_abs_le(w - dn, n as int + 1, 700_000_000);
    }
    let step = div_trunc_i64(w - dn, n + 1);
    let mut j: i64 = 1;
    while j <= amount as i64 - 2
        invariant
            1 <= j <= amount - 1,
            2 <= amount,
            v@.len() == j,
            -GEOM_LIMIT <= margin <= GEOM_LIMIT,
            -GEOM_LIMIT <= radius <= GEOM_LIMIT,
            -GEOM_LIMIT <= extent <= GEOM_LIMIT,
            -700_000_000 <= step <= 700_000_000,
            step == distribute_step(amount as int, margin as int, radius as int, extent as int),
            forall|i: int|
                0 <= i < j ==> v@[i] == distribute_pos(
                    i,
                    amount as int,
                    margin as int,
                    radius as int,
                    extent as int,
                ),
        decreases amount - j,
    {
        proof {
            assert(-(254 * 700_000_000int) <= step * j <= 254 * 700_000_000int && -(509
                * GEOM_LIMIT as int) <= (2 * j + 1) * radius <= 509 * GEOM_LIMIT as int)
                by (nonlinear_arith)
                requires
                    -700_000_000 <= step <= 700_000_000,
                    1 <= j <= 254,
                    -GEOM_LIMIT <= radius <= GEOM_LIMIT,
            ;
        }
        v.push(step * j + (2 * j + 1) * radius + margin);
        j = j + 1;
    }
    v.push(extent - margin - radius);
    v
}

/// Positions for the centers of `amount` circles of radius `radius` on a
/// line of size `extent` whose other coordinate is `base`, laid out as
/// `placement` says.  An even amount under a `V` placement is a
/// configuration error; zero circles are an empty line under every
/// placement.
pub fn line_enemy_positions(
    base: i64,
    radius: i64,
    amount: u8,
    extent: i64,
    placement: HorizontalLinePlacement,
) -> (r: Result<Vec<(i64, i64)>, ConfigError>)
    requires
        -2 * GEOM_LIMIT <= base <= 2 * GEOM_LIMIT,
        -GEOM_LIMIT <= radius <= GEOM_LIMIT,
        -GEOM_LIMIT <= extent <= GEOM_LIMIT,
        crate::reader::h_placement_ok(placement),
    ensures
        r is Err <==> line_rejects(placement, amount as int),
        r matches Err(e) ==> e == ConfigError::EvenAmountInV,
        r matches Ok(v) ==> v@.len() == amount && forall|i: int|
            0 <= i < amount ==> (#[trigger] v@[i]).0 == line_pos(
                placement,
                i,
                amount as int,
                base as int,
                radius as int,
                extent as int,
            ).0 && v@[i].1 == line_pos(
                placement,
                i,
                amount as int,
                base as int,
                radius as int,
                extent as int,
            ).1,
        amount == 0 ==> (r matches Ok(v) && v@.len() == 0),
{
    let mut ret: Vec<(i64, i64)> = Vec::new();
    if amount == 0 {
        return Ok(ret);
    }
    match placement {
        HorizontalLinePlacement::Distribute { margin } => {
            let m = match margin {
                Some(v) => v,
                None => 0,
            };
            let coords = distribute_coords(m, radius, amount, extent);
            let mut i: usize = 0;
            while i < coords.len()
                invariant
                    0 <= i <= coords@.len() == amount,
                    ret@.len() == i,
                    forall|k: int|
                        0 <= k < amount ==> coords@[k] == distribute_pos(
                            k,
                            amount as int,
                            m as int,
                            radius as int,
                            extent as int,
                        ),
                    forall|k: int|
                        0 <= k < i ==> (#[trigger] ret@[k]).0 == line_pos(
                            placement,
                            k,
                            amount as int,
                            base as int,
                            radius as int,
                            extent as int,
                        ).0 && ret@[k].1 == line_pos(
                            placement,
                            k,
                            amount as int,
                            base as int,
                            radius as int,
                            extent as int,
                        ).1,
                    placement == (HorizontalLinePlacement::Distribute { margin }),
                    margin_or_zero(margin) == m,
                decreases coords@.len() - i,
            {
                ret.push((coords[i], base));
                i = i + 1;
            }
            Ok(ret)
        },
        HorizontalLinePlacement::FromLeft { margin, spacing } => {
            let m = match margin {
                Some(v) => v,
                None => 0,
            };
            let mut i: i64 = 0;
            while i < amount as i64
                invariant
                    0 <= i <= amount,
                    ret@.len() == i,
                    -GEOM_LIMIT <= m <= GEOM_LIMIT,
                    -GEOM_LIMIT <= spacing <= GEOM_LIMIT,
                    -GEOM_LIMIT <= radius <= GEOM_LIMIT,
                    forall|k: int|
                        0 <= k < i ==> (#[trigger] ret@[k]).0 == line_pos(
                            placement,
                            k,
                            amount as int,
                            base as int,
                            radius as int,
                            extent as int,
                        ).0 && ret@[k].1 == line_pos(
                            placement,
                            k,
                            amount as int,
                            base as int,
                            radius as int,
                            extent as int,
                        ).1,
                    placement == (HorizontalLinePlacement::FromLeft { margin, spacing }),
                    margin_or_zero(margin) == m,
                decreases amount - i,
            {
                proof {
                    assert(-(255 * 3 * GEOM_LIMIT as int) <= i * (spacing + 2 * radius) <= 255 * 3
                        * GEOM_LIMIT as int) by (nonlinear_arith)
                        requires
                            0 <= i <= 255,
                            -GEOM_LIMIT <= spacing <= GEOM_LIMIT,
                            -GEOM_LIMIT <= radius <= GEOM_LIMIT,
                    ;
                }
                ret.push((m + i * (spacing + 2 * radius) + radius, base));
                i = i + 1;
            }
            Ok(ret)
        },
        HorizontalLinePlacement::FromRight { margin, spacing } => {
            let m = match margin {
                Some(v) => v,
                None => 0,
            };
            let mut i: i64 = 0;
            while i < amount as i64
                invariant
                    0 <= i <= amount,
                    ret@.len() == i,
                    -GEOM_LIMIT <= m <= GEOM_LIMIT,
                    -GEOM_LIMIT <= spacing <= GEOM_LIMIT,
                    -GEOM_LIMIT <= radius <= GEOM_LIMIT,
                    -GEOM_LIMIT <= extent <= GEOM_LIMIT,
                    forall|k: int|
                        0 <= k < i ==> (#[trigger] ret@[k]).0 == line_pos(
                            placement,
                            k,
                            amount as int,
                            base as int,
                            radius as int,
                            extent as int,
                        ).0 && ret@[k].1 == line_pos(
                            placement,
                            k,
                            amount as int,
                            base as int,
                            radius as int,
                            extent as int,
                        ).1,
                    placement == (HorizontalLinePlacement::FromRight { margin, spacing }),
                    margin_or_zero(margin) == m,
                decreases amount - i,
            {
                proof {
                    assert(-(255 * 3 * GEOM_LIMIT as int) <= i * (spacing + 2 * radius) <= 255 * 3
                        * GEOM_LIMIT as int) by (nonlinear_arith)
                        requires
                            0 <= i <= 255,
                            -GEOM_LIMIT <= spacing <= GEOM_LIMIT,
                            -GEOM_LIMIT <= radius <= GEOM_LIMIT,
                    ;
                }
                ret.push((extent - (m + i * (spacing + 2 * radius) + radius), base));
                i = i + 1;
            }
            Ok(ret)
        },
        HorizontalLinePlacement::V { margin, spacing } => {
            if amount % 2 == 0 {
                return Err(ConfigError::EvenAmountInV);
            }
            let m = match margin {
                Some(v) => v,
                None => 0,
            };
            let coords = distribute_coords(m, radius, amount, extent);
            let mut i: usize = 0;
            while i < coords.len()
                invariant
                    0 <= i <= coords@.len() == amount,
                    ret@.len() == i,
                    -GEOM_LIMIT <= m <= GEOM_LIMIT,
                    -GEOM_LIMIT <= spacing <= GEOM_LIMIT,
                    -2 * GEOM_LIMIT <= base <= 2 * GEOM_LIMIT,
                    forall|k: int|
                        0 <= k < amount ==> coords@[k] == distribute_pos(
                            k,
                            amount as int,
                            m as int,
                            radius as int,
                            extent as int,
                        ),
                    forall|k: int|
                        0 <= k < i ==> (#[trigger] ret@[k]).0 == line_pos(
                            placement,
                            k,
                            amount as int,
                            base as int,
                            radius as int,
                            extent as int,
                        ).0 && ret@[k].1 == line_pos(
                            placement,
                            k,
                            amount as int,
                            base as int,
                            radius as int,
                            extent as int,
                        ).1,
                    placement == (HorizontalLinePlacement::V { margin, spacing }),
                    margin_or_zero(margin) == m,
                decreases coords@.len() - i,
            {
                let h = (amount / 2) as i64 - (i as i64);
                let d = if h < 0 {
                    -h
                } else {
                    h
                };
                proof {
                    assert(0 <= d * spacing <= 127 * GEOM_LIMIT as int || -(127
                        * GEOM_LIMIT as int) <= d * spacing <= 0) by (nonlinear_arith)
                        requires
                            0 <= d <= 127,
                            -GEOM_LIMIT <= spacing <= GEOM_LIMIT,
                    ;
                }
                ret.push((coords[i], base - d * spacing));
                i = i + 1;
            }
            Ok(ret)
        },
    }
}

/// Every line position stays well inside the coordinate bound: placements
/// of `GEOM_LIMIT`-sized scalars never leave `POS_LIMIT`.
pub proof fn lemma_line_pos_bounded(
    p: HorizontalLinePlacement,
    i: int,
    amount: int,
    base: int,
    radius: int,
    extent: int,
)
    requires
        crate::reader::h_placement_ok(p),
        -2 * GEOM_LIMIT <= base <= 2 * GEOM_LIMIT,
        -GEOM_LIMIT <= radius <= GEOM_LIMIT,
        -GEOM_LIMIT <= extent <= GEOM_LIMIT,
        0 <= i < amount <= 255,
    ensures
        -POS_LIMIT <= line_pos(p, i, amount, base, radius, extent).0 <= POS_LIMIT,
        -POS_LIMIT <= line_pos(p, i, amount, base, radius, extent).1 <= POS_LIMIT,
{
    match p {
        HorizontalLinePlacement::Distribute { margin } => {
            lemma_distribute_pos_bounded(i, amount, margin_or_zero(margin), radius, extent);
        },
        HorizontalLinePlacement::FromLeft { margin, spacing } => {
            assert(-(255 * 3 * GEOM_LIMIT as int) <= i * (spacing + 2 * radius) <= 255 * 3
                * GEOM_LIMIT as int) by (nonlinear_arith)
                requires
                    0 <= i <= 255,
                    -GEOM_LIMIT <= spacing <= GEOM_LIMIT,
                    -GEOM_LIMIT <= radius <= GEOM_LIMIT,
            ;
        },
        HorizontalLinePlacement::FromRight { margin, spacing } => {
            assert(-(255 * 3 * GEOM_LIMIT as int) <= i * (spacing + 2 * radius) <= 255 * 3
                * GEOM_LIMIT as int) by (nonlinear_arith)
                requires
                    0 <= i <= 255,
                    -GEOM_LIMIT <= spacing <= GEOM_LIMIT,
                    -GEOM_LIMIT <= radius <= GEOM_LIMIT,
            ;
        },
        HorizontalLinePlacement::V { margin, spacing } => {
            lemma_distribute_pos_bounded(i, amount, margin_or_zero(margin), radius, extent);
            assert(-(255 * GEOM_LIMIT as int) <= abs_int(amount / 2 - i) * spacing <= 255
                * GEOM_LIMIT as int) by (nonlinear_arith)
                requires
                    0 <= abs_int(amount / 2 - i) <= 255,
                    -GEOM_LIMIT <= spacing <= GEOM_LIMIT,
            ;
        },
    }
}

/// Distributed positions stay well inside the coordinate bound.
proof fn lemma_distribute_pos_bounded(i: int, amount: int, margin: int, radius: int, extent: int)
    requires
        -GEOM_LIMIT <= margin <= GEOM_LIMIT,
        -GEOM_LIMIT <= radius <= GEOM_LIMIT,
        -GEOM_LIMIT <= extent <= GEOM_LIMIT,
        0 <= i < amount <= 255,
    ensures
        -POS_LIMIT <= distribute_pos(i, amount, margin, radius, extent) <= POS_LIMIT,
{
    let n = amount - 2;
    let w = distribute_w(margin, radius, extent);
    if amount == 1 {
        crate::geometry::lemma_div_trunc_abs_le(extent, 2, GEOM_LIMIT as int);
    } else if i == 0 || i == amount - 1 {
    } else {
        let a = w - 2 * radius * n;
        assert(-600_000_000 <= 2 * radius * n <= 600_000_000) by (nonlinear_arith)
            requires
                -GEOM_LIMIT <= radius <= GEOM_LIMIT,
                0 <= n <= 253,
        ;
        crate::geometry::lemma_div_trunc_mul_le(a, n + 1, i, 610_000_000);
        assert(-(509 * GEOM_LIMIT as int) <= (2 * i + 1) * radius <= 509 * GEOM_LIMIT as int)
            by (nonlinear_arith)
            requires
                1 <= i <= 254,
                -GEOM_LIMIT <= radius <= GEOM_LIMIT,
        ;
    }
}

/// An exact truncating quotient reassembles its dividend: when `b` divides
/// `a`, `b * (a / b) == a` also under truncating division.
pub proof fn lemma_div_trunc_exact(a: int, b: int)
    requires
        b > 0,
        a % b == 0,
    ensures
        b * div_trunc(a, b) == a,
{
    vstd::arithmetic::div_mod::lemma_fundamental_div_mod(a, b);
    if a < 0 {
        vstd::arithmetic::mul::lemma_mul_is_commutative(b, a / b);
        vstd::arithmetic::mul::lemma_mul_unary_negation(a / b, b);
        vstd::arithmetic::div_mod::lemma_fundamental_div_mod_converse_div(-a, b, -(a / b), 0);
        vstd::arithmetic::mul::lemma_mul_is_commutative(b, -(a / b));
        vstd::arithmetic::mul::lemma_mul_unary_negation(b, a / b);
    }
}

/// Distributed circles anchor their first point at `margin + radius` and
/// their last at `extent - margin - radius`, for every amount of at least
/// two.
pub proof fn lemma_distribute_anchors(amount: int, margin: int, radius: int, extent: int)
    requires
        2 <= amount,
    ensures
        distribute_pos(0, amount, margin, radius, extent) == margin + radius,
        distribute_pos(amount - 1, amount, margin, radius, extent) == extent - margin - radius,
{
}

/// All consecutive gaps between the borders of distributed circles equal
/// the distribution step, whenever the leftover width divides evenly over
/// the gaps (otherwise the final gap absorbs the rounding remainder).
pub proof fn lemma_distribute_equal_gaps(
    amount: int,
    margin: int,
    radius: int,
    extent: int,
    i: int,
)
    requires
        2 <= amount,
        0 <= i < amount - 1,
        (distribute_w(margin, radius, extent) - 2 * radius * (amount - 2)) % (amount - 1) == 0,
    ensures
        distribute_pos(i + 1, amount, margin, radius, extent) - distribute_pos(
            i,
            amount,
            margin,
            radius,
            extent,
        ) - 2 * radius == distribute_step(amount, margin, radius, extent),
{
    let n = amount - 2;
    let w = distribute_w(margin, radius, extent);
    let a = w - 2 * radius * n;
    let step = distribute_step(amount, margin, radius, extent);
    lemma_div_trunc_exact(a, n + 1);
    assert((n + 1) * step == a);
    if amount == 2 {
        assert(2 * radius * n == 0 && step == a) by (nonlinear_arith)
            requires
                (n + 1) * step == a,
                n == 0,
        ;
    } else if i == 0 {
        assert(step * (i + 1) == step && (2 * (i + 1) + 1) * radius == 3 * radius)
            by (nonlinear_arith)
            requires
                i == 0,
        ;
    } else if i + 1 == amount - 1 {
        assert(step * i + step == a) by (nonlinear_arith)
            requires
                (n + 1) * step == a,
                i == n,
        ;
        assert((2 * i + 1) * radius == 2 * radius * n + radius) by (nonlinear_arith)
            requires
                i == n,
        ;
    } else {
        assert(step * (i + 1) == step * i + step) by (nonlinear_arith);
        assert((2 * (i + 1) + 1) * radius == (2 * i + 1) * radius + 2 * radius)
            by (nonlinear_arith);
    }
}

} // verus!
