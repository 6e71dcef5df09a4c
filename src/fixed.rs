//! Fixed-point scalars with eight fractional bits, and 2D vectors of them.
use vstd::prelude::*;

verus! {

/// Number of fractional bits of a [`Fixed`].
pub const FRAC_BITS: u32 = 8;

/// The raw value of one whole unit.
pub const ONE_RAW: i32 = 256;

/// Largest whole number that converts to a [`Fixed`] with room to spare for
/// the sums the physics forms.
pub const MAX_WHOLE: i32 = 4194304;

/// Rust's `/` on integers: the quotient rounded toward zero.
pub open spec fn trunc_div(a: int, d: int) -> int {
    if a >= 0 {
        a / d
    } else {
        -((-a) / d)
    }
}

/// A signed fixed-point number: the value is `raw / 256`.
#[derive(Clone, Copy, Debug, PartialEq, Eq, Structural)]
pub struct Fixed {
    pub raw: i32,
}

/// `a / d` rounded toward negative infinity, for a positive `d`.
pub fn floor_div(a: i32, d: i32) -> (r: i32)
    requires
        d > 0,
    ensures
        r == a / d,
{
    proof {
        assert(i32::MIN <= a / d <= i32::MAX) by (nonlinear_arith)
            requires
                d > 0,
                i32::MIN <= a <= i32::MAX,
        {
            if a >= 0 {
                assert(a / d <= a);
            } else {
                assert(a / d >= a);
            }
        }
    }
    match a.checked_div_euclid(d) {
        Some(q) => q,
        None => 0,
    }
}

impl Fixed {
    pub open spec fn view(self) -> int {
        self.raw as int
    }

    pub fn from_raw(raw: i32) -> (r: Fixed)
        ensures
            r.raw == raw,
    {
        Fixed { raw }
    }

    pub fn zero() -> (r: Fixed)
        ensures
            r.raw == 0,
    {
        Fixed { raw: 0 }
    }

    /// The whole number `n`.
    pub fn new(n: i32) -> (r: Fixed)
        requires
            -MAX_WHOLE <= n <= MAX_WHOLE,
        ensures
            r.raw == n * 256,
    {
        Fixed { raw: n * ONE_RAW }
    }

    pub fn plus(self, o: Fixed) -> (r: Fixed)
        requires
            i32::MIN <= self.raw + o.raw <= i32::MAX,
        ensures
            r.raw == self.raw + o.raw,
    {
        Fixed { raw: self.raw + o.raw }
    }

    pub fn minus(self, o: Fixed) -> (r: Fixed)
        requires
            i32::MIN <= self.raw - o.raw <= i32::MAX,
        ensures
            r.raw == self.raw - o.raw,
    {
        Fixed { raw: self.raw - o.raw }
    }

    pub fn neg(self) -> (r: Fixed)
        requires
            self.raw > i32::MIN,
        ensures
            r.raw == -self.raw,
    {
        Fixed { raw: -self.raw }
    }

    /// Product of two fixed-point numbers, rounded toward negative infinity.
    pub fn mul_fixed(self, o: Fixed) -> (r: Fixed)
        requires
            i32::MIN <= (self.raw * o.raw) / 256 <= i32::MAX,
        ensures
            r.raw == (self.raw * o.raw) / 256,
    {
        let p: i64 = (self.raw as i64) * (o.raw as i64);
        proof {
            assert(i64::MIN <= (self.raw as int) * (o.raw as int) <= i64::MAX) by (nonlinear_arith)
                requires
                    i32::MIN <= self.raw <= i32::MAX,
                    i32::MIN <= o.raw <= i32::MAX,
            ;
        }
        let q: i64 = match p.checked_div_euclid(256) {
            Some(q) => q,
            None => 0,
        };
        Fixed { raw: q as i32 }
    }

    /// Product with a whole number.
    pub fn mul_int(self, k: i32) -> (r: Fixed)
        requires
            i32::MIN <= self.raw * k <= i32::MAX,
        ensures
            r.raw == self.raw * k,
    {
        Fixed { raw: self.raw * k }
    }

    /// Quotient by a whole number, rounded toward zero.
    pub fn div_int(self, k: i32) -> (r: Fixed)
        requires
            k > 0,
        ensures
            r.raw == trunc_div(self.raw as int, k as int),
    {
        Fixed { raw: self.raw / k }
    }

    pub fn abs(self) -> (r: Fixed)
        requires
            self.raw > i32::MIN,
        ensures
            r.raw == if self.raw < 0 { -self.raw } else { self.raw as int },
    {
        if self.raw < 0 {
            Fixed { raw: -self.raw }
        } else {
            self
        }
    }

    /// The largest whole number not above `self`.
    pub fn floor(self) -> (r: i32)
        ensures
            r == self.raw / 256,
    {
        floor_div(self.raw, ONE_RAW)
    }
}

/// A pair of fixed-point numbers: a position, a velocity or an offset.
#[derive(Clone, Copy, Debug, PartialEq, Eq, Structural)]
pub struct Vec2 {
    pub x: Fixed,
    pub y: Fixed,
}

impl Vec2 {
    pub open spec fn is_zero(self) -> bool {
        self.x.raw == 0 && self.y.raw == 0
    }

    pub fn new(x: Fixed, y: Fixed) -> (r: Vec2)
        ensures
            r.x == x,
            r.y == y,
    {
        Vec2 { x, y }
    }

    pub fn zero() -> (r: Vec2)
        ensures
            r.x.raw == 0,
            r.y.raw == 0,
    {
        Vec2 { x: Fixed::zero(), y: Fixed::zero() }
    }

    /// The point with whole coordinates `(x, y)`.
    pub fn from_ints(x: i32, y: i32) -> (r: Vec2)
        requires
            -MAX_WHOLE <= x <= MAX_WHOLE,
            -MAX_WHOLE <= y <= MAX_WHOLE,
        ensures
            r.x.raw == x * 256,
            r.y.raw == y * 256,
    {
        Vec2 { x: Fixed::new(x), y: Fixed::new(y) }
    }

    pub fn plus(self, o: Vec2) -> (r: Vec2)
        requires
            i32::MIN <= self.x.raw + o.x.raw <= i32::MAX,
            i32::MIN <= self.y.raw + o.y.raw <= i32::MAX,
        ensures
            r.x.raw == self.x.raw + o.x.raw,
            r.y.raw == self.y.raw + o.y.raw,
    {
        Vec2 { x: self.x.plus(o.x), y: self.y.plus(o.y) }
    }

    pub fn minus(self, o: Vec2) -> (r: Vec2)
        requires
            i32::MIN <= self.x.raw - o.x.raw <= i32::MAX,
            i32::MIN <= self.y.raw - o.y.raw <= i32::MAX,
        ensures
            r.x.raw == self.x.raw - o.x.raw,
            r.y.raw == self.y.raw - o.y.raw,
    {
        Vec2 { x: self.x.minus(o.x), y: self.y.minus(o.y) }
    }

    pub fn mul_int(self, k: i32) -> (r: Vec2)
        requires
            i32::MIN <= self.x.raw * k <= i32::MAX,
            i32::MIN <= self.y.raw * k <= i32::MAX,
        ensures
            r.x.raw == self.x.raw * k,
            r.y.raw == self.y.raw * k,
    {
        Vec2 { x: self.x.mul_int(k), y: self.y.mul_int(k) }
    }

    pub fn div_int(self, k: i32) -> (r: Vec2)
        requires
            k > 0,
        ensures
            r.x.raw == trunc_div(self.x.raw as int, k as int),
            r.y.raw == trunc_div(self.y.raw as int, k as int),
    {
        Vec2 { x: self.x.div_int(k), y: self.y.div_int(k) }
    }

    /// Componentwise floor: whole pixel coordinates.
    pub fn floor(self) -> (r: (i32, i32))
        ensures
            r.0 == self.x.raw / 256,
            r.1 == self.y.raw / 256,
    {
        (self.x.floor(), self.y.floor())
    }

    /// `x*x + y*y`, each product rounded toward negative infinity, as the raw
    /// value of a fixed-point number with eight fractional bits held in 64 bits.
    pub fn magnitude_squared(self) -> (r: i64)
        ensures
            r == (self.x.raw * self.x.raw) / 256 + (self.y.raw * self.y.raw) / 256,
    {
        let x: i64 = self.x.raw as i64;
        let y: i64 = self.y.raw as i64;
        proof {
            assert(0 <= x * x <= 0x4000_0000_0000_0000) by (nonlinear_arith)
                requires
                    i32::MIN <= x <= i32::MAX,
            ;
            assert(0 <= y * y <= 0x4000_0000_0000_0000) by (nonlinear_arith)
                requires
                    i32::MIN <= y <= i32::MAX,
            ;
        }
        let xx: i64 = (x * x) / 256;
        let yy: i64 = (y * y) / 256;
        xx + yy
    }

    /// `|x| + |y|`.
    pub fn manhattan_distance(self) -> (r: Fixed)
        requires
            self.x.raw > i32::MIN,
            self.y.raw > i32::MIN,
            abs_int(self.x.raw as int) + abs_int(self.y.raw as int) <= i32::MAX,
        ensures
            r.raw == abs_int(self.x.raw as int) + abs_int(self.y.raw as int),
    {
        self.x.abs().plus(self.y.abs())
    }
}

pub open spec fn abs_int(a: int) -> int {
    if a < 0 {
        -a
    } else {
        a
    }
}

} // verus!
