//! Fixed-point arithmetic for the simulation.
//!
//! Lengths, speeds, angles and their rates are integers counted in millionths
//! ([`UNIT`] stands for one world unit, one radian, one unit per second).
//! Elapsed time is counted in nanoseconds. Products are formed in `i128` and
//! divided back with rounding toward zero.

use vstd::prelude::*;

verus! {

/// The fixed-point representation of 1.
pub const UNIT: i64 = 1_000_000;

/// Nanoseconds in one second.
pub const NANOS_PER_SECOND: u64 = 1_000_000_000;

/// Half a turn, in millionths of a radian.
pub const HALF_TURN: i64 = 3_141_593;

/// Largest magnitude of a vector component: one million world units.
pub const COORD_MAX: i64 = 1_000_000_000_000;

/// Largest argument of [`floor_sqrt_of`]: 2 to the power 120.
pub const SQRT_MAX: i128 = 0x100_0000_0000_0000_0000_0000_0000_0000;

/// Division that rounds toward zero, for a positive divisor.
pub open spec fn trunc_div(a: int, b: int) -> int
    recommends
        b > 0,
{
    if a >= 0 {
        a / b
    } else {
        -((-a) / b)
    }
}

/// `x` limited to the interval from `lo` to `hi`.
pub open spec fn clamp(x: int, lo: int, hi: int) -> int
    recommends
        lo <= hi,
{
    if x < lo {
        lo
    } else if x > hi {
        hi
    } else {
        x
    }
}

/// The magnitude of `x`.
pub open spec fn abs(x: int) -> int {
    if x < 0 {
        -x
    } else {
        x
    }
}

/// `r` is the integer part of the square root of `n`.
pub open spec fn is_floor_sqrt(n: int, r: int) -> bool {
    0 <= r && r * r <= n && n < (r + 1) * (r + 1)
}

/// The integer part of the square root of a non-negative `n`.
pub open spec fn floor_sqrt(n: int) -> int {
    choose|r: int| is_floor_sqrt(n, r)
}

/// The least integer whose square is at least `n`.
pub open spec fn ceil_sqrt(n: int) -> int {
    let r = floor_sqrt(n);
    if r * r == n {
        r
    } else {
        r + 1
    }
}

/// Squaring is monotone on the non-negative integers.
pub proof fn lemma_square_monotone(a: int, b: int)
    requires
        0 <= a <= b,
    ensures
        a * a <= b * b,
{
    assert(a * a <= b * b) by (nonlinear_arith)
        requires
            0 <= a <= b,
    ;
}

/// A number has at most one integer square root.
pub proof fn lemma_floor_sqrt_unique(n: int, r: int)
    requires
        is_floor_sqrt(n, r),
    ensures
        floor_sqrt(n) == r,
{
    let s = floor_sqrt(n);
    assert(is_floor_sqrt(n, s));
    if s < r {
        lemma_square_monotone(s + 1, r);
    } else if r < s {
        lemma_square_monotone(r + 1, s);
    }
}

/// Every non-negative number has an integer square root.
pub proof fn lemma_floor_sqrt_exists(n: int)
    requires
        n >= 0,
    ensures
        is_floor_sqrt(n, floor_sqrt(n)),
    decreases n,
{
    if n == 0 {
        assert(is_floor_sqrt(0, 0));
    } else {
        lemma_floor_sqrt_exists(n - 1);
        let r = floor_sqrt(n - 1);
        if n < (r + 1) * (r + 1) {
            assert(is_floor_sqrt(n, r));
        } else {
            assert((r + 1) * (r + 1) == n);
            assert(n < (r + 2) * (r + 2)) by (nonlinear_arith)
                requires
                    (r + 1) * (r + 1) == n,
                    r >= 0,
            ;
            assert(is_floor_sqrt(n, r + 1));
        }
    }
}

/// Rounding toward zero never grows a quotient's magnitude, keeps its sign,
/// and loses less than one.
pub proof fn lemma_trunc_div_bounds(a: int, b: int)
    requires
        b > 0,
    ensures
        abs(trunc_div(a, b)) * b <= abs(a),
        abs(a) < (abs(trunc_div(a, b)) + 1) * b,
        a >= 0 ==> trunc_div(a, b) >= 0,
        a <= 0 ==> trunc_div(a, b) <= 0,
{
    let m = abs(a);
    let q = m / b;
    assert(q * b <= m && m < (q + 1) * b && q >= 0) by (nonlinear_arith)
        requires
            b > 0,
            m >= 0,
            q == m / b,
    ;
    assert(abs(trunc_div(a, b)) == q);
}

/// Divides with rounding toward zero.
pub fn div_trunc(a: i128, b: i128) -> (q: i128)
    requires
        b > 0,
        a > i128::MIN,
    ensures
        q == trunc_div(a as int, b as int),
{
    if a >= 0 {
        a / b
    } else {
        -((-a) / b)
    }
}

/// Limits `x` to the interval from `lo` to `hi`.
pub fn clamp_to(x: i128, lo: i128, hi: i128) -> (c: i128)
    requires
        lo <= hi,
    ensures
        c == clamp(x as int, lo as int, hi as int),
        lo <= c <= hi,
{
    if x < lo {
        lo
    } else if x > hi {
        hi
    } else {
        x
    }
}

/// The magnitude of `x`.
pub fn magnitude(x: i64) -> (m: i128)
    ensures
        m == abs(x as int),
        0 <= m <= 0x8000_0000_0000_0000,
{
    let wide: i128 = x as i128;
    if wide < 0 {
        -wide
    } else {
        wide
    }
}

/// Computes the integer part of the square root of `n` by bisection.
pub fn floor_sqrt_of(n: i128) -> (r: i128)
    requires
        0 <= n < SQRT_MAX,
    ensures
        r == floor_sqrt(n as int),
        is_floor_sqrt(n as int, r as int),
        0 <= r < 0x1000_0000_0000_0000,
{
    let mut lo: i128 = 0;
    let mut hi: i128 = 0x1000_0000_0000_0000;
    assert(0x1000_0000_0000_0000int * 0x1000_0000_0000_0000int == SQRT_MAX) by (nonlinear_arith);
    while hi - lo > 1
        invariant
            0 <= lo < hi <= 0x1000_0000_0000_0000,
            lo * lo <= n,
            n < hi * hi,
        decreases hi - lo,
    {
        let mid: i128 = lo + (hi - lo) / 2;
        proof {
            lemma_square_monotone(mid as int, 0x1000_0000_0000_0000);
            lemma_square_monotone(0, mid as int);
        }
        let square: i128 = mid * mid;
        if square <= n {
            lo = mid;
        } else {
            hi = mid;
        }
    }
    proof {
        assert(hi == lo + 1);
        lemma_floor_sqrt_unique(n as int, lo as int);
    }
    lo
}

/// Computes the least integer whose square is at least `n`.
pub fn ceil_sqrt_of(n: i128) -> (r: i128)
    requires
        0 <= n < SQRT_MAX,
    ensures
        r == ceil_sqrt(n as int),
        r * r >= n,
        0 <= r <= 0x1000_0000_0000_0000,
        n > 0 ==> r > 0,
{
    let floor: i128 = floor_sqrt_of(n);
    proof {
        lemma_square_monotone(floor as int, 0x1000_0000_0000_0000);
        assert(0x1000_0000_0000_0000int * 0x1000_0000_0000_0000int == SQRT_MAX) by (nonlinear_arith);
    }
    if floor * floor == n {
        floor
    } else {
        floor + 1
    }
}

/// A point or a displacement in the plane.
#[derive(Clone, Copy, Debug, PartialEq, Eq, Structural)]
pub struct Vec2 {
    pub x: i64,
    pub y: i64,
}

impl Vec2 {
    /// Both components lie within [`COORD_MAX`] of zero.
    pub open spec fn in_range(self) -> bool {
        -COORD_MAX <= self.x <= COORD_MAX && -COORD_MAX <= self.y <= COORD_MAX
    }

    /// The square of the vector's length, in millionths squared.
    pub open spec fn length_squared(self) -> int {
        self.x * self.x + self.y * self.y
    }

    /// The square of the distance between two points.
    pub open spec fn distance_squared(self, other: Vec2) -> int {
        (self.x - other.x) * (self.x - other.x) + (self.y - other.y) * (self.y - other.y)
    }

    /// The sum of the products of the components.
    pub open spec fn dot(self, other: Vec2) -> int {
        self.x * other.x + self.y * other.y
    }

    /// The vector moved by `(dx, dy)`, each component held within range.
    pub open spec fn moved_by(self, dx: int, dy: int) -> Vec2 {
        Vec2 {
            x: clamp(self.x + dx, -COORD_MAX as int, COORD_MAX as int) as i64,
            y: clamp(self.y + dy, -COORD_MAX as int, COORD_MAX as int) as i64,
        }
    }

    /// Tells whether both components lie within [`COORD_MAX`] of zero.
    pub fn is_in_range(&self) -> (within: bool)
        ensures
            within == self.in_range(),
    {
        -COORD_MAX <= self.x && self.x <= COORD_MAX && -COORD_MAX <= self.y && self.y <= COORD_MAX
    }

    /// The vector with the given components, if they are within range.
    pub fn new(x: i64, y: i64) -> (v: Option<Vec2>)
        ensures
            v == if (Vec2 { x, y }).in_range() {
                Some(Vec2 { x, y })
            } else {
                None
            },
    {
        if -COORD_MAX <= x && x <= COORD_MAX && -COORD_MAX <= y && y <= COORD_MAX {
            Some(Vec2 { x, y })
        } else {
            None
        }
    }

    /// The origin.
    pub fn zero() -> (v: Vec2)
        ensures
            v == (Vec2 { x: 0, y: 0 }),
    {
        Vec2 { x: 0, y: 0 }
    }

    /// The unit vector along the first axis.
    pub fn unit_x() -> (v: Vec2)
        ensures
            v == (Vec2 { x: UNIT, y: 0 }),
    {
        Vec2 { x: UNIT, y: 0 }
    }

    /// Tells whether both components are zero.
    pub fn is_zero(&self) -> (z: bool)
        ensures
            z == (self.x == 0 && self.y == 0),
    {
        self.x == 0 && self.y == 0
    }

    /// Computes the square of the distance to `other`.
    pub fn distance_squared_to(&self, other: &Vec2) -> (d: i128)
        requires
            self.in_range(),
            other.in_range(),
        ensures
            d == self.distance_squared(*other),
            0 <= d <= 8 * COORD_MAX * COORD_MAX,
    {
        let dx: i128 = self.x as i128 - other.x as i128;
        let dy: i128 = self.y as i128 - other.y as i128;
        proof {
            lemma_square_bound(dx as int, 2 * COORD_MAX);
            lemma_square_bound(dy as int, 2 * COORD_MAX);
        }
        dx * dx + dy * dy
    }

    /// Computes the displacement from `other` to `self`.
    pub fn minus(&self, other: &Vec2) -> (d: Vec2)
        requires
            self.in_range(),
            other.in_range(),
        ensures
            d.x == self.x - other.x,
            d.y == self.y - other.y,
            -2 * COORD_MAX <= d.x <= 2 * COORD_MAX,
            -2 * COORD_MAX <= d.y <= 2 * COORD_MAX,
    {
        Vec2 { x: self.x - other.x, y: self.y - other.y }
    }

    /// Moves the vector by `(dx, dy)`, holding each component within range.
    pub fn saturating_move(&self, dx: i128, dy: i128) -> (v: Vec2)
        requires
            self.in_range(),
            i128::MIN / 2 <= dx <= i128::MAX / 2,
            i128::MIN / 2 <= dy <= i128::MAX / 2,
        ensures
            v == self.moved_by(dx as int, dy as int),
            v.in_range(),
    {
        let x: i128 = clamp_to(self.x as i128 + dx, -(COORD_MAX as i128), COORD_MAX as i128);
        let y: i128 = clamp_to(self.y as i128 + dy, -(COORD_MAX as i128), COORD_MAX as i128);
        Vec2 { x: x as i64, y: y as i64 }
    }
}

/// A point or a direction in space.
#[derive(Clone, Copy, Debug, PartialEq, Eq, Structural)]
pub struct Vec3 {
    pub x: i64,
    pub y: i64,
    pub z: i64,
}

/// A product is bounded by the product of bounds on the magnitudes.
pub proof fn lemma_product_bound(a: int, b: int, bound_a: int, bound_b: int)
    requires
        -bound_a <= a <= bound_a,
        -bound_b <= b <= bound_b,
    ensures
        -(bound_a * bound_b) <= a * b <= bound_a * bound_b,
{
    assert(-(bound_a * bound_b) <= a * b <= bound_a * bound_b) by (nonlinear_arith)
        requires
            -bound_a <= a <= bound_a,
            -bound_b <= b <= bound_b,
    ;
}

/// A square is bounded by the square of a bound on the magnitude.
pub proof fn lemma_square_bound(a: int, bound: int)
    requires
        -bound <= a <= bound,
    ensures
        0 <= a * a <= bound * bound,
{
    assert(0 <= a * a <= bound * bound) by (nonlinear_arith)
        requires
            -bound <= a <= bound,
    ;
}

} // verus!
