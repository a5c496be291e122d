//! Exact rational arithmetic over `i64` numerator/denominator pairs.
//!
//! Prices, share counts and accumulated statistics are held as exact
//! rationals so that the replay arithmetic can be specified and verified
//! precisely. Every operation either returns the exact mathematical result
//! or reports that a component left the representable range.

use vstd::prelude::*;

verus! {

/// The mathematical value of a rational: an unbounded numerator and
/// denominator. Well-formed values keep the denominator strictly positive.
pub ghost struct Q {
    pub num: int,
    pub den: int,
}

/// A well-formed rational has a strictly positive denominator.
pub open spec fn q_wf(q: Q) -> bool {
    q.den > 0
}

pub open spec fn q_zero() -> Q {
    Q { num: 0, den: 1 }
}

pub open spec fn q_int(n: int) -> Q {
    Q { num: n, den: 1 }
}

pub open spec fn q_add(a: Q, b: Q) -> Q {
    Q { num: a.num * b.den + b.num * a.den, den: a.den * b.den }
}

pub open spec fn q_sub(a: Q, b: Q) -> Q {
    Q { num: a.num * b.den - b.num * a.den, den: a.den * b.den }
}

pub open spec fn q_mul(a: Q, b: Q) -> Q {
    Q { num: a.num * b.num, den: a.den * b.den }
}

/// Exact division. The divisor's sign moves onto the numerator, so dividing
/// a well-formed value by a well-formed value with nonzero numerator yields
/// a well-formed value.
pub open spec fn q_div(a: Q, b: Q) -> Q {
    if b.num >= 0 {
        Q { num: a.num * b.den, den: a.den * b.num }
    } else {
        Q { num: -(a.num * b.den), den: -(a.den * b.num) }
    }
}

/// Value equality of two well-formed rationals, by cross-multiplication.
pub open spec fn q_eq(a: Q, b: Q) -> bool {
    a.num * b.den == b.num * a.den
}

/// Strict value order of two well-formed rationals, by cross-multiplication.
pub open spec fn q_lt(a: Q, b: Q) -> bool {
    a.num * b.den < b.num * a.den
}

pub open spec fn fits_i64(x: int) -> bool {
    -0x8000_0000_0000_0000 <= x <= 0x7fff_ffff_ffff_ffff
}

/// Both components of an exact result are representable in an `i64` pair.
pub open spec fn q_fits(q: Q) -> bool {
    fits_i64(q.num) && fits_i64(q.den)
}

/// The product of any `i64`-range value with a positive `i64`-range value
/// stays safely inside the `i128` range.
proof fn lemma_mul_by_positive_bound(a: int, b: int)
    by (nonlinear_arith)
    requires
        -0x8000_0000_0000_0000 <= a <= 0x7fff_ffff_ffff_ffff,
        1 <= b <= 0x7fff_ffff_ffff_ffff,
    ensures
        -0x3fff_ffff_ffff_ffff_8000_0000_0000_0000 <= a * b
            <= 0x3fff_ffff_ffff_ffff_8000_0000_0000_0000,
{
}

/// The product of two `i64`-range values stays inside the `i128` range.
proof fn lemma_mul_i64_bound(a: int, b: int)
    by (nonlinear_arith)
    requires
        -0x8000_0000_0000_0000 <= a <= 0x7fff_ffff_ffff_ffff,
        -0x8000_0000_0000_0000 <= b <= 0x7fff_ffff_ffff_ffff,
    ensures
        -0x4000_0000_0000_0000_0000_0000_0000_0000 <= a * b
            <= 0x4000_0000_0000_0000_0000_0000_0000_0000,
{
}

/// Multiplying by a strictly positive value keeps the first factor's sign.
proof fn lemma_mul_sign(a: int, b: int)
    by (nonlinear_arith)
    requires
        a > 0,
    ensures
        b > 0 ==> a * b > 0,
        b < 0 ==> a * b < 0,
        b == 0 ==> a * b == 0,
{
}

/// A nonzero value times a strictly positive value is nonzero.
pub proof fn lemma_nonzero_mul(a: int, b: int)
    by (nonlinear_arith)
    requires
        a != 0,
        b > 0,
    ensures
        a * b != 0,
{
}

/// An exact rational: 64-bit numerator over a strictly positive 64-bit
/// denominator. Values are not reduced to lowest terms; compare them with
/// [`Rat::eq_value`].
#[derive(Clone, Copy, Debug)]
pub struct Rat {
    num: i64,
    den: i64,
}

impl View for Rat {
    type V = Q;

    closed spec fn view(&self) -> Q {
        Q { num: self.num as int, den: self.den as int }
    }
}

impl Rat {
    /// Well-formedness: the denominator is strictly positive.
    pub open spec fn wf(self) -> bool {
        q_wf(self@)
    }

    pub fn new(num: i64, den: i64) -> (r: Rat)
        requires
            den > 0,
        ensures
            r@ == (Q { num: num as int, den: den as int }),
            r.wf(),
    {
        Rat { num, den }
    }

    pub fn zero() -> (r: Rat)
        ensures
            r@ == q_zero(),
            r.wf(),
    {
        Rat { num: 0, den: 1 }
    }

    pub fn from_int(n: i64) -> (r: Rat)
        ensures
            r@ == q_int(n as int),
            r.wf(),
    {
        Rat { num: n, den: 1 }
    }

    pub fn numerator(&self) -> (r: i64)
        ensures
            r as int == self@.num,
    {
        self.num
    }

    pub fn denominator(&self) -> (r: i64)
        ensures
            r as int == self@.den,
    {
        self.den
    }

    pub fn is_zero(&self) -> (r: bool)
        ensures
            r == (self@.num == 0),
    {
        self.num == 0
    }

    /// True when the value is strictly positive.
    pub fn is_positive(&self) -> (r: bool)
        requires
            self.wf(),
        ensures
            r == q_lt(q_zero(), self@),
    {
        proof {
            assert(q_lt(q_zero(), self@) == (self@.num > 0)) by (nonlinear_arith)
                requires
                    self@.den > 0;
        }
        self.num > 0
    }

    /// Strict value order.
    pub fn lt(&self, other: &Rat) -> (r: bool)
        requires
            self.wf(),
            other.wf(),
        ensures
            r == q_lt(self@, other@),
    {
        proof {
            lemma_mul_by_positive_bound(self@.num, other@.den);
            lemma_mul_by_positive_bound(other@.num, self@.den);
        }
        (self.num as i128) * (other.den as i128) < (other.num as i128) * (self.den as i128)
    }

    /// Value equality (the representations may differ).
    pub fn eq_value(&self, other: &Rat) -> (r: bool)
        requires
            self.wf(),
            other.wf(),
        ensures
            r == q_eq(self@, other@),
    {
        proof {
            lemma_mul_by_positive_bound(self@.num, other@.den);
            lemma_mul_by_positive_bound(other@.num, self@.den);
        }
        (self.num as i128) * (other.den as i128) == (other.num as i128) * (self.den as i128)
    }

    /// Range-checks an exact `i128` result and narrows it to a `Rat`.
    fn pack(n: i128, d: i128) -> (r: Option<Rat>)
        requires
            d > 0,
        ensures
            r is Some <==> (fits_i64(n as int) && fits_i64(d as int)),
            (r matches Some(v) ==> v@ == (Q { num: n as int, den: d as int }) && v.wf()),
    {
        if n >= -0x8000_0000_0000_0000i128 && n <= 0x7fff_ffff_ffff_ffffi128
            && d <= 0x7fff_ffff_ffff_ffffi128 {
            Some(Rat { num: n as i64, den: d as i64 })
        } else {
            None
        }
    }

    /// Exact sum, or `None` when a component leaves the `i64` range.
    pub fn checked_add(&self, other: &Rat) -> (r: Option<Rat>)
        requires
            self.wf(),
            other.wf(),
        ensures
            r is Some <==> q_fits(q_add(self@, other@)),
            (r matches Some(v) ==> v@ == q_add(self@, other@) && v.wf()),
    {
        proof {
            lemma_mul_by_positive_bound(self@.num, other@.den);
            lemma_mul_by_positive_bound(other@.num, self@.den);
            lemma_mul_by_positive_bound(self@.den, other@.den);
            lemma_mul_sign(self@.den, other@.den);
        }
        let n: i128 = (self.num as i128) * (other.den as i128)
            + (other.num as i128) * (self.den as i128);
        let d: i128 = (self.den as i128) * (other.den as i128);
        Self::pack(n, d)
    }

    /// Exact difference, or `None` when a component leaves the `i64` range.
    pub fn checked_sub(&self, other: &Rat) -> (r: Option<Rat>)
        requires
            self.wf(),
            other.wf(),
        ensures
            r is Some <==> q_fits(q_sub(self@, other@)),
            (r matches Some(v) ==> v@ == q_sub(self@, other@) && v.wf()),
    {
        proof {
            lemma_mul_by_positive_bound(self@.num, other@.den);
            lemma_mul_by_positive_bound(other@.num, self@.den);
            lemma_mul_by_positive_bound(self@.den, other@.den);
            lemma_mul_sign(self@.den, other@.den);
        }
        let n: i128 = (self.num as i128) * (other.den as i128)
            - (other.num as i128) * (self.den as i128);
        let d: i128 = (self.den as i128) * (other.den as i128);
        Self::pack(n, d)
    }

    /// Exact product, or `None` when a component leaves the `i64` range.
    pub fn checked_mul(&self, other: &Rat) -> (r: Option<Rat>)
        requires
            self.wf(),
            other.wf(),
        ensures
            r is Some <==> q_fits(q_mul(self@, other@)),
            (r matches Some(v) ==> v@ == q_mul(self@, other@) && v.wf()),
    {
        proof {
            lemma_mul_i64_bound(self@.num, other@.num);
            lemma_mul_by_positive_bound(self@.den, other@.den);
            lemma_mul_sign(self@.den, other@.den);
        }
        let n: i128 = (self.num as i128) * (other.num as i128);
        let d: i128 = (self.den as i128) * (other.den as i128);
        Self::pack(n, d)
    }

    /// Exact quotient, or `None` when a component leaves the `i64` range.
    /// The divisor must be a nonzero value.
    pub fn checked_div(&self, other: &Rat) -> (r: Option<Rat>)
        requires
            self.wf(),
            other.wf(),
            other@.num != 0,
        ensures
            r is Some <==> q_fits(q_div(self@, other@)),
            (r matches Some(v) ==> v@ == q_div(self@, other@) && v.wf()),
    {
        proof {
            lemma_mul_by_positive_bound(self@.num, other@.den);
            lemma_mul_i64_bound(self@.den, other@.num);
            lemma_mul_sign(self@.den, other@.num);
        }
        let n0: i128 = (self.num as i128) * (other.den as i128);
        let d0: i128 = (self.den as i128) * (other.num as i128);
        if d0 < 0 {
            Self::pack(-n0, -d0)
        } else {
            Self::pack(n0, d0)
        }
    }
}

} // verus!
