//! Fixed-point scalars and 2-d vectors.
//!
//! A world coordinate is an `i64` count of whole grid units; velocities,
//! accelerations, remainders and times are `i64` counts of sub-units
//! ([`UNIT`] sub-units per world unit, or per second for times). All
//! arithmetic below rounds exactly the way the engine's contracts state it:
//! division truncates toward zero and rounding to whole units breaks ties
//! away from zero.

use vstd::prelude::*;

verus! {

/// Sub-units per world unit (and per second, for times).
pub const UNIT: i64 = 1000;

/// Half of [`UNIT`]; the rounding threshold.
pub const HALF_UNIT: i64 = 500;

/// Largest magnitude allowed for a coordinate of a world-space box
/// (position + collider offset + half extent stays far inside `i64`).
pub const COORD_LIMIT: i64 = 1_000_000_000_000_000;

/// Largest position magnitude (in units) a body may have when a sweep starts.
pub const POS_LIMIT: i64 = 1_000_000_000_000;

/// Largest velocity magnitude, in sub-units per second.
pub const VEL_LIMIT: i64 = 1_000_000_000;

/// Largest acceleration magnitude, in sub-units per second per second.
pub const ACCEL_LIMIT: i64 = 1_000_000_000;

/// Largest tick length, in sub-units of a second.
pub const DT_LIMIT: i64 = 1_000_000_000;

/// Largest per-axis displacement request (in sub-units) a single sweep accepts.
pub const MOVE_LIMIT: i64 = 1_000_000_000_000_000;

/// Mathematical 2-d vector; the model of every executable vector and of every
/// pair of fixed-point scalars.
pub ghost struct Vec2 {
    pub x: int,
    pub y: int,
}

/// Absolute value.
pub open spec fn iabs(a: int) -> int {
    if a >= 0 {
        a
    } else {
        -a
    }
}

/// Division truncating toward zero, as `i64` division does; meaningful for `b > 0`.
pub open spec fn div_toward_zero(a: int, b: int) -> int
    recommends
        b > 0,
{
    if a >= 0 {
        a / b
    } else {
        -((-a) / b)
    }
}

/// Nearest whole-unit count for `r` sub-units, ties rounded away from zero.
pub open spec fn round_to_units(r: int) -> int {
    if r >= 0 {
        (r + HALF_UNIT as int) / (UNIT as int)
    } else {
        -((-r + HALF_UNIT as int) / (UNIT as int))
    }
}

pub open spec fn v2(x: int, y: int) -> Vec2 {
    Vec2 { x: x, y: y }
}

pub open spec fn v2_add(a: Vec2, b: Vec2) -> Vec2 {
    Vec2 { x: a.x + b.x, y: a.y + b.y }
}

pub open spec fn v2_sub(a: Vec2, b: Vec2) -> Vec2 {
    Vec2 { x: a.x - b.x, y: a.y - b.y }
}

pub open spec fn v2_zero() -> Vec2 {
    Vec2 { x: 0, y: 0 }
}

/// Both components of `v` have magnitude at most `limit`.
pub open spec fn v2_in_range(v: Vec2, limit: int) -> bool {
    &&& iabs(v.x) <= limit
    &&& iabs(v.y) <= limit
}

/// Executable 2-d vector of fixed-point scalars.
#[derive(Clone, Copy, PartialEq, Eq, Structural, Debug)]
pub struct Vec2i {
    pub x: i64,
    pub y: i64,
}

impl View for Vec2i {
    type V = Vec2;

    open spec fn view(&self) -> Vec2 {
        Vec2 { x: self.x as int, y: self.y as int }
    }
}

impl Vec2i {
    pub fn new(x: i64, y: i64) -> (r: Vec2i)
        ensures
            r@ == v2(x as int, y as int),
    {
        Vec2i { x: x, y: y }
    }

    pub fn zero() -> (r: Vec2i)
        ensures
            r@ == v2_zero(),
    {
        Vec2i { x: 0, y: 0 }
    }

    pub fn plus(self, other: Vec2i) -> (r: Vec2i)
        requires
            i64::MIN <= self@.x + other@.x <= i64::MAX,
            i64::MIN <= self@.y + other@.y <= i64::MAX,
        ensures
            r@ == v2_add(self@, other@),
    {
        Vec2i { x: self.x + other.x, y: self.y + other.y }
    }

    pub fn minus(self, other: Vec2i) -> (r: Vec2i)
        requires
            i64::MIN <= self@.x - other@.x <= i64::MAX,
            i64::MIN <= self@.y - other@.y <= i64::MAX,
        ensures
            r@ == v2_sub(self@, other@),
    {
        Vec2i { x: self.x - other.x, y: self.y - other.y }
    }
}

/// Division truncating toward zero, the exact executable twin of
/// [`div_toward_zero`].
pub fn div_trunc(a: i64, b: i64) -> (q: i64)
    requires
        b > 0,
        a > i64::MIN,
    ensures
        q == div_toward_zero(a as int, b as int),
        iabs(q as int) <= iabs(a as int),
{
    proof {
        lemma_div_toward_zero_bound(a as int, b as int);
    }
    if a >= 0 {
        a / b
    } else {
        -((-a) / b)
    }
}

/// Rounds `r` sub-units to whole units, ties away from zero; the exact
/// executable twin of [`round_to_units`].
pub fn round_units(r: i64) -> (m: i64)
    requires
        -MOVE_LIMIT - UNIT <= r <= MOVE_LIMIT + UNIT,
    ensures
        m == round_to_units(r as int),
        iabs(m as int) <= iabs(r as int) / (UNIT as int) + 1,
{
    proof {
        lemma_round_to_units_bound(r as int);
    }
    if r >= 0 {
        (r + HALF_UNIT) / UNIT
    } else {
        -((-r + HALF_UNIT) / UNIT)
    }
}

/// The quotient toward zero never exceeds the dividend in magnitude (`b >= 1`).
pub proof fn lemma_div_toward_zero_bound(a: int, b: int)
    requires
        b >= 1,
    ensures
        iabs(div_toward_zero(a, b)) <= iabs(a),
        a >= 0 ==> 0 <= div_toward_zero(a, b) <= a,
        a < 0 ==> a <= div_toward_zero(a, b) <= 0,
{
    if a >= 0 {
        vstd::arithmetic::div_mod::lemma_div_basics_5(a, b);
        vstd::arithmetic::div_mod::lemma_div_pos_is_pos(a, b);
    } else {
        vstd::arithmetic::div_mod::lemma_div_basics_5(-a, b);
        vstd::arithmetic::div_mod::lemma_div_pos_is_pos(-a, b);
    }
}

/// Negating the dividend negates the truncated quotient.
pub proof fn lemma_div_toward_zero_odd(a: int, b: int)
    requires
        b >= 1,
    ensures
        div_toward_zero(-a, b) == -div_toward_zero(a, b),
{
}

/// What rounding to units leaves behind: the rounded count differs from the
/// exact quotient by at most half a unit, and rounds to zero exactly on the
/// open interval `(-HALF_UNIT, HALF_UNIT)`.
pub proof fn lemma_round_to_units_props(r: int)
    ensures
        iabs(r - round_to_units(r) * (UNIT as int)) <= HALF_UNIT as int,
        round_to_units(r) == 0 <==> iabs(r) < HALF_UNIT as int,
        r >= 0 ==> round_to_units(r) >= 0,
        r <= 0 ==> round_to_units(r) <= 0,
{
    if r >= 0 {
        lemma_round_nonneg_props(r);
    } else {
        lemma_round_nonneg_props(-r);
    }
}

proof fn lemma_round_nonneg_props(r: int)
    requires
        r >= 0,
    ensures
        round_to_units(r) >= 0,
        iabs(r - round_to_units(r) * (UNIT as int)) <= HALF_UNIT as int,
        round_to_units(r) == 0 <==> r < HALF_UNIT as int,
{
    let u = UNIT as int;
    let m = (r + HALF_UNIT as int) / u;
    vstd::arithmetic::div_mod::lemma_div_pos_is_pos(r + HALF_UNIT as int, u);
    vstd::arithmetic::div_mod::lemma_fundamental_div_mod(r + HALF_UNIT as int, u);
    vstd::arithmetic::div_mod::lemma_mod_bound(r + HALF_UNIT as int, u);
    assert(r + 500 == u * m + (r + 500) % u);
    assert(0 <= (r + 500) % u < 1000);
    assert(u * m == m * u) by (nonlinear_arith);
    assert(iabs(r - m * u) <= 500);
    if r < 500 {
        assert(m <= 0) by {
            if m >= 1 {
                assert(u * m >= u) by (nonlinear_arith)
                    requires
                        m >= 1,
                        u == 1000,
                ;
            }
        }
    } else {
        assert(m >= 1) by {
            if m <= 0 {
                assert(u * m <= 0) by (nonlinear_arith)
                    requires
                        m <= 0,
                        u == 1000,
                ;
            }
        }
    }
}

/// A whole number of units rounds to itself.
pub proof fn lemma_round_exact(k: int)
    ensures
        round_to_units(k * (UNIT as int)) == k,
{
    let u = UNIT as int;
    if k >= 0 {
        assert(k * u >= 0) by (nonlinear_arith)
            requires
                k >= 0,
                u > 0,
        ;
        vstd::arithmetic::div_mod::lemma_fundamental_div_mod_converse(
            k * u + HALF_UNIT as int,
            u,
            k,
            HALF_UNIT as int,
        );
    } else {
        assert(k * u < 0) by (nonlinear_arith)
            requires
                k < 0,
                u > 0,
        ;
        assert(-(k * u) == (-k) * u) by (nonlinear_arith);
        vstd::arithmetic::div_mod::lemma_fundamental_div_mod_converse(
            (-k) * u + HALF_UNIT as int,
            u,
            -k,
            HALF_UNIT as int,
        );
    }
}

/// Product of bounded factors stays bounded.
pub proof fn lemma_mul_range(a: int, b: int, ca: int, cb: int)
    by (nonlinear_arith)
    requires
        -ca <= a <= ca,
        0 <= b <= cb,
        0 <= ca,
    ensures
        -(ca * cb) <= a * b <= ca * cb,
{
}

/// Dividing a bounded value by `b >= 1` bounds the quotient by `n / b`.
pub proof fn lemma_div_toward_zero_le(a: int, b: int, n: int)
    requires
        b >= 1,
        iabs(a) <= n,
    ensures
        iabs(div_toward_zero(a, b)) <= n / b,
{
    if a >= 0 {
        vstd::arithmetic::div_mod::lemma_div_pos_is_pos(a, b);
        vstd::arithmetic::div_mod::lemma_div_is_ordered(a, n, b);
    } else {
        vstd::arithmetic::div_mod::lemma_div_pos_is_pos(-a, b);
        vstd::arithmetic::div_mod::lemma_div_is_ordered(-a, n, b);
    }
}

/// Bound used by the executable rounding helper.
pub proof fn lemma_round_to_units_bound(r: int)
    ensures
        iabs(round_to_units(r)) <= iabs(r) / (UNIT as int) + 1,
        r >= 0 ==> round_to_units(r) <= r / (UNIT as int) + 1,
{
    let u = UNIT as int;
    if r >= 0 {
        vstd::arithmetic::div_mod::lemma_div_pos_is_pos(r + HALF_UNIT as int, u);
        vstd::arithmetic::div_mod::lemma_div_is_ordered(r + HALF_UNIT as int, r + u, u);
        vstd::arithmetic::div_mod::lemma_div_plus_one(r, u);
        vstd::arithmetic::div_mod::lemma_div_pos_is_pos(r, u);
    } else {
        vstd::arithmetic::div_mod::lemma_div_pos_is_pos(-r + HALF_UNIT as int, u);
        vstd::arithmetic::div_mod::lemma_div_is_ordered(-r + HALF_UNIT as int, -r + u, u);
        vstd::arithmetic::div_mod::lemma_div_plus_one(-r, u);
        vstd::arithmetic::div_mod::lemma_div_pos_is_pos(-r, u);
    }
}

} // verus!
