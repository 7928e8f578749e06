//! Exact rational numbers.
//!
//! Cursor positions, normalized device coordinates, aspect ratios and scale
//! factors are all quotients of machine integers. `Frac` is the executable
//! representation (an `i64` numerator over a positive `i64` denominator) and
//! `Rat` is its mathematical view, a quotient of unbounded integers.
//! Equality and ordering of two rationals are compared by cross
//! multiplication, so no precision is ever lost.

use vstd::prelude::*;

verus! {

/// Executable rational number `num / den`. Well-formed values keep `den > 0`.
#[derive(Clone, Copy, Debug, PartialEq, Eq, Structural)]
pub struct Frac {
    pub num: i64,
    pub den: i64,
}

/// Mathematical rational number `num / den` over unbounded integers; the
/// view of a [`Frac`].
pub ghost struct Rat {
    pub num: int,
    pub den: int,
}

impl Rat {
    /// The denominator is positive, so the value is a well-defined rational.
    pub open spec fn wf(self) -> bool {
        self.den > 0
    }

    /// Value equality by cross multiplication; exact when both sides are
    /// well-formed.
    pub open spec fn eq_rat(self, other: Rat) -> bool {
        self.num * other.den == other.num * self.den
    }

    /// Value ordering by cross multiplication; meaningful when both sides
    /// are well-formed.
    pub open spec fn le_rat(self, other: Rat) -> bool {
        self.num * other.den <= other.num * self.den
    }

    /// Strict value ordering by cross multiplication.
    pub open spec fn lt_rat(self, other: Rat) -> bool {
        self.num * other.den < other.num * self.den
    }

    /// The rational equals the integer `k` exactly.
    pub open spec fn is_int(self, k: int) -> bool {
        self.num == k * self.den
    }

    /// The rational standing for the integer `k`.
    pub open spec fn from_int(k: int) -> Rat {
        Rat { num: k, den: 1 }
    }
}

/// Largest numerator magnitude a cursor coordinate may carry; leaves room
/// for the normalized-device-coordinate arithmetic in `i64`.
pub const COORD_NUM_MAX: i64 = 0x1000_0000_0000_0000;

/// Largest denominator a cursor coordinate may carry; leaves room for the
/// normalized-device-coordinate arithmetic in `i64`.
pub const COORD_DEN_MAX: i64 = 0x4000_0000;

impl View for Frac {
    type V = Rat;

    open spec fn view(&self) -> Rat {
        Rat { num: self.num as int, den: self.den as int }
    }
}

impl Frac {
    /// The denominator is positive.
    pub open spec fn wf(self) -> bool {
        self.den > 0
    }

    /// Well-formed and small enough to run through the coordinate
    /// transforms without overflowing `i64`.
    pub open spec fn coord_bounded(self) -> bool {
        &&& -COORD_NUM_MAX <= self.num <= COORD_NUM_MAX
        &&& 0 < self.den <= COORD_DEN_MAX
    }

    /// Builds the rational `num / den`.
    pub fn new(num: i64, den: i64) -> (r: Frac)
        requires
            den > 0,
        ensures
            r.num == num,
            r.den == den,
            r.wf(),
    {
        Frac { num, den }
    }

    /// The rational representing zero.
    pub fn zero() -> (r: Frac)
        ensures
            r.num == 0,
            r.den == 1,
            r@.is_int(0),
            r.wf(),
    {
        Frac { num: 0, den: 1 }
    }

    /// The rational representing the integer `k`.
    pub fn from_i64(k: i64) -> (r: Frac)
        ensures
            r.num == k,
            r.den == 1,
            r@.is_int(k as int),
            r.wf(),
    {
        Frac { num: k, den: 1 }
    }

    /// Exact value equality: `self` and `other` denote the same rational.
    pub fn eq_val(&self, other: &Frac) -> (r: bool)
        ensures
            r == self@.eq_rat(other@),
    {
        proof {
            lemma_i64_prod_fits(self.num as int, other.den as int);
            lemma_i64_prod_fits(other.num as int, self.den as int);
        }
        (self.num as i128) * (other.den as i128) == (other.num as i128) * (self.den as i128)
    }

    /// Exact value ordering: the rational `self` is at most `other`.
    /// Meaningful only for well-formed operands.
    pub fn le_val(&self, other: &Frac) -> (r: bool)
        ensures
            r == self@.le_rat(other@),
    {
        proof {
            lemma_i64_prod_fits(self.num as int, other.den as int);
            lemma_i64_prod_fits(other.num as int, self.den as int);
        }
        (self.num as i128) * (other.den as i128) <= (other.num as i128) * (self.den as i128)
    }

    /// Exact strict ordering: the rational `self` is below `other`.
    /// Meaningful only for well-formed operands.
    pub fn lt_val(&self, other: &Frac) -> (r: bool)
        ensures
            r == self@.lt_rat(other@),
    {
        proof {
            lemma_i64_prod_fits(self.num as int, other.den as int);
            lemma_i64_prod_fits(other.num as int, self.den as int);
        }
        (self.num as i128) * (other.den as i128) < (other.num as i128) * (self.den as i128)
    }

    /// The rational is strictly positive.
    pub fn is_positive(&self) -> (r: bool)
        requires
            self.wf(),
        ensures
            r == Rat::from_int(0).lt_rat(self@),
    {
        self.num > 0
    }
}

/// The product of two values in `i64` range stays in `i128` range.
proof fn lemma_i64_prod_fits(a: int, b: int)
    requires
        i64::MIN <= a <= i64::MAX,
        i64::MIN <= b <= i64::MAX,
    ensures
        i128::MIN <= a * b <= i128::MAX,
{
    assert(i128::MIN <= a * b <= i128::MAX) by (nonlinear_arith)
        requires
            i64::MIN <= a <= i64::MAX,
            i64::MIN <= b <= i64::MAX,
    ;
}

} // verus!
