//! Exact rational numbers with bounded components.
//!
//! The viewport transform is affine arithmetic over ratios (window size over
//! reference size, a scroll amount over 500, and so on), so the library keeps
//! every coordinate, offset and scale as an exact fraction `num / den` of
//! 64-bit integers.  The denominator is always at least 1, and both components
//! stay strictly below `RAT_BOUND`, so that every product of two components
//! fits comfortably in an `i128`.  An operation whose exact result does not
//! fit returns `None`; callers treat that the way a float implementation
//! treats a non-finite result: the update is discarded and the previous valid
//! state is kept.
//!
//! Specifications speak about the ghost type `Frac`, a pair of unbounded
//! integers, so that contracts can state the exact mathematical value of every
//! result.

use vstd::prelude::*;

verus! {

/// Exclusive bound on the magnitude of a `Rat` numerator and denominator.
pub const RAT_BOUND: i64 = 0x4000_0000_0000_0000;

/// Ghost model of a fraction: an unbounded numerator and denominator.
#[verifier::ext_equal]
pub struct Frac {
    pub n: int,
    pub d: int,
}

/// The fraction zero, in canonical form.
pub open spec fn fzero() -> Frac {
    Frac { n: 0, d: 1 }
}

/// The fraction one, in canonical form.
pub open spec fn fone() -> Frac {
    Frac { n: 1, d: 1 }
}

/// Exact sum of two fractions, over the product denominator.
pub open spec fn fadd(a: Frac, b: Frac) -> Frac {
    Frac { n: a.n * b.d + b.n * a.d, d: a.d * b.d }
}

/// Exact difference of two fractions, over the product denominator.
pub open spec fn fsub(a: Frac, b: Frac) -> Frac {
    Frac { n: a.n * b.d - b.n * a.d, d: a.d * b.d }
}

/// Exact product of two fractions.
pub open spec fn fmul(a: Frac, b: Frac) -> Frac {
    Frac { n: a.n * b.n, d: a.d * b.d }
}

/// Exact quotient of two fractions.  The resulting denominator carries the
/// sign of `b.n`; `fnorm` restores a positive denominator.
pub open spec fn fdiv(a: Frac, b: Frac) -> Frac {
    Frac { n: a.n * b.d, d: a.d * b.n }
}

/// Negation.
pub open spec fn fneg(a: Frac) -> Frac {
    Frac { n: -a.n, d: a.d }
}

/// Moves a sign out of the denominator, so that the denominator is positive
/// whenever it was nonzero.
pub open spec fn fnorm(a: Frac) -> Frac {
    if a.d < 0 {
        Frac { n: -a.n, d: -a.d }
    } else {
        a
    }
}

/// Value equality of fractions, by cross multiplication.
pub open spec fn feq(a: Frac, b: Frac) -> bool {
    a.n * b.d == b.n * a.d
}

/// Value ordering of fractions, by cross multiplication.  Meaningful when
/// both denominators are positive.
pub open spec fn fle(a: Frac, b: Frac) -> bool {
    a.n * b.d <= b.n * a.d
}

/// Whether a fraction can be stored in a `Rat` as it stands: a positive
/// denominator and both components strictly inside the bound.
pub open spec fn fits(a: Frac) -> bool {
    &&& 1 <= a.d < RAT_BOUND as int
    &&& -(RAT_BOUND as int) < a.n < RAT_BOUND as int
}

/// An exact fraction of bounded 64-bit components, with `den >= 1`.
#[derive(Clone, Copy, Debug, PartialEq, Eq, Structural)]
pub struct Rat {
    pub num: i64,
    pub den: i64,
}

impl View for Rat {
    type V = Frac;

    open spec fn view(&self) -> Frac {
        Frac { n: self.num as int, d: self.den as int }
    }
}

impl Rat {
    /// Well-formedness: the stored fraction is within bounds and its
    /// denominator is positive.
    pub open spec fn wf(self) -> bool {
        fits(self@)
    }

    /// Builds the fraction `num / den`.
    pub fn new(num: i64, den: i64) -> (r: Rat)
        requires
            1 <= den < RAT_BOUND,
            -RAT_BOUND < num < RAT_BOUND,
        ensures
            r.wf(),
            r@ == (Frac { n: num as int, d: den as int }),
    {
        Rat { num, den }
    }

    /// Builds the integer `v` as a fraction over 1.
    pub fn from_int(v: i64) -> (r: Rat)
        requires
            -RAT_BOUND < v < RAT_BOUND,
        ensures
            r.wf(),
            r@ == (Frac { n: v as int, d: 1 }),
    {
        Rat { num: v, den: 1 }
    }

    /// Exact sum; `None` when the exact result does not fit.
    pub fn add(self, other: Rat) -> (r: Option<Rat>)
        requires
            self.wf(),
            other.wf(),
        ensures
            r is Some <==> fits(fadd(self@, other@)),
            r is Some ==> r->0.wf() && r->0@ == fadd(self@, other@),
    {
        proof {
            lemma_mul_bounds(self.num as int, other.den as int, RAT_BOUND as int);
            lemma_mul_bounds(other.num as int, self.den as int, RAT_BOUND as int);
            lemma_mul_bounds(self.den as int, other.den as int, RAT_BOUND as int);
            lemma_pos_mul(self.den as int, other.den as int);
        }
        let n: i128 = (self.num as i128) * (other.den as i128) + (other.num as i128) * (self.den as i128);
        let d: i128 = (self.den as i128) * (other.den as i128);
        rat_make(n, d)
    }

    /// Exact difference; `None` when the exact result does not fit.
    pub fn sub(self, other: Rat) -> (r: Option<Rat>)
        requires
            self.wf(),
            other.wf(),
        ensures
            r is Some <==> fits(fsub(self@, other@)),
            r is Some ==> r->0.wf() && r->0@ == fsub(self@, other@),
    {
        proof {
            lemma_mul_bounds(self.num as int, other.den as int, RAT_BOUND as int);
            lemma_mul_bounds(other.num as int, self.den as int, RAT_BOUND as int);
            lemma_mul_bounds(self.den as int, other.den as int, RAT_BOUND as int);
            lemma_pos_mul(self.den as int, other.den as int);
        }
        let n: i128 = (self.num as i128) * (other.den as i128) - (other.num as i128) * (self.den as i128);
        let d: i128 = (self.den as i128) * (other.den as i128);
        rat_make(n, d)
    }

    /// Exact product; `None` when the exact result does not fit.
    pub fn mul(self, other: Rat) -> (r: Option<Rat>)
        requires
            self.wf(),
            other.wf(),
        ensures
            r is Some <==> fits(fmul(self@, other@)),
            r is Some ==> r->0.wf() && r->0@ == fmul(self@, other@),
    {
        proof {
            lemma_mul_bounds(self.num as int, other.num as int, RAT_BOUND as int);
            lemma_mul_bounds(self.den as int, other.den as int, RAT_BOUND as int);
            lemma_pos_mul(self.den as int, other.den as int);
        }
        let n: i128 = (self.num as i128) * (other.num as i128);
        let d: i128 = (self.den as i128) * (other.den as i128);
        rat_make(n, d)
    }

    /// Exact quotient, with the denominator sign moved into the numerator;
    /// `None` when the exact result does not fit.
    pub fn div(self, other: Rat) -> (r: Option<Rat>)
        requires
            self.wf(),
            other.wf(),
            other@.n != 0,
        ensures
            r is Some <==> fits(fnorm(fdiv(self@, other@))),
            r is Some ==> r->0.wf() && r->0@ == fnorm(fdiv(self@, other@)),
    {
        proof {
            lemma_mul_bounds(self.num as int, other.den as int, RAT_BOUND as int);
            lemma_mul_bounds(self.den as int, other.num as int, RAT_BOUND as int);
        }
        let mut n: i128 = (self.num as i128) * (other.den as i128);
        let mut d: i128 = (self.den as i128) * (other.num as i128);
        if d < 0 {
            n = -n;
            d = -d;
        }
        proof {
            lemma_mul_nonzero(self.den as int, other.num as int);
        }
        rat_make(n, d)
    }

    /// Exact negation; always fits because the bound is symmetric.
    pub fn neg(self) -> (r: Rat)
        requires
            self.wf(),
        ensures
            r.wf(),
            r@ == fneg(self@),
    {
        Rat { num: -self.num, den: self.den }
    }

    /// Value comparison `self <= other`.
    pub fn le(self, other: Rat) -> (r: bool)
        requires
            self.wf(),
            other.wf(),
        ensures
            r == fle(self@, other@),
    {
        proof {
            lemma_mul_bounds(self.num as int, other.den as int, RAT_BOUND as int);
            lemma_mul_bounds(other.num as int, self.den as int, RAT_BOUND as int);
        }
        (self.num as i128) * (other.den as i128) <= (other.num as i128) * (self.den as i128)
    }

    /// Value equality `self == other` (equal fractions, not equal
    /// representations).
    pub fn eq_value(self, other: Rat) -> (r: bool)
        requires
            self.wf(),
            other.wf(),
        ensures
            r == feq(self@, other@),
    {
        proof {
            lemma_mul_bounds(self.num as int, other.den as int, RAT_BOUND as int);
            lemma_mul_bounds(other.num as int, self.den as int, RAT_BOUND as int);
        }
        (self.num as i128) * (other.den as i128) == (other.num as i128) * (self.den as i128)
    }
}

/// Stores an exact fraction with a positive denominator as a `Rat`, when it
/// fits the bounds.
fn rat_make(n: i128, d: i128) -> (r: Option<Rat>)
    requires
        1 <= d,
    ensures
        r is Some <==> fits(Frac { n: n as int, d: d as int }),
        r is Some ==> r->0.wf() && r->0@ == (Frac { n: n as int, d: d as int }),
{
    let bound: i128 = RAT_BOUND as i128;
    if -bound < n && n < bound && d < bound {
        Some(Rat { num: n as i64, den: d as i64 })
    } else {
        None
    }
}

/// Value equality of fractions is transitive when the middle denominator is
/// nonzero.
pub proof fn lemma_feq_trans(a: Frac, b: Frac, c: Frac)
    by (nonlinear_arith)
    requires
        feq(a, b),
        feq(b, c),
        b.d != 0,
    ensures
        feq(a, c),
{
}

/// Adding and then subtracting the same fraction is the identity, up to value
/// equality.
pub proof fn lemma_sub_add_cancel(a: Frac, b: Frac)
    by (nonlinear_arith)
    ensures
        feq(fsub(fadd(a, b), b), a),
{
}

/// Subtracting and then adding the same fraction is the identity, up to value
/// equality.
pub proof fn lemma_add_sub_cancel(a: Frac, b: Frac)
    by (nonlinear_arith)
    ensures
        feq(fadd(fsub(a, b), b), a),
{
}

/// Dividing and then multiplying by the same fraction is the identity, up to
/// value equality.
pub proof fn lemma_mul_div_cancel(a: Frac, s: Frac)
    by (nonlinear_arith)
    ensures
        feq(fmul(fdiv(a, s), s), a),
{
}

/// Value equality is a congruence for multiplication.
pub proof fn lemma_feq_mul_congr(a: Frac, b: Frac, s: Frac)
    by (nonlinear_arith)
    requires
        feq(a, b),
    ensures
        feq(fmul(a, s), fmul(b, s)),
{
}

/// Value equality of the divisor is a congruence for division.
pub proof fn lemma_feq_div_arg_congr(a: Frac, g: Frac, h: Frac)
    requires
        feq(g, h),
    ensures
        feq(fdiv(a, g), fdiv(a, h)),
{
    assert((a.n * g.d) * (a.d * h.n) == (a.n * h.d) * (a.d * g.n)) by (nonlinear_arith)
        requires
            g.n * h.d == h.n * g.d,
    ;
}

/// Value equality is a congruence for addition.
pub proof fn lemma_feq_add_congr(a: Frac, b: Frac, s: Frac)
    requires
        feq(a, b),
    ensures
        feq(fadd(a, s), fadd(b, s)),
{
    vstd::arithmetic::mul::lemma_mul_is_distributive_add_other_way(b.d * s.d, a.n * s.d, s.n * a.d);
    vstd::arithmetic::mul::lemma_mul_is_distributive_add_other_way(a.d * s.d, b.n * s.d, s.n * b.d);
    assert((a.n * s.d) * (b.d * s.d) == (a.n * b.d) * (s.d * s.d)) by (nonlinear_arith);
    assert((s.n * a.d) * (b.d * s.d) == (s.n * s.d) * (a.d * b.d)) by (nonlinear_arith);
    assert((b.n * s.d) * (a.d * s.d) == (b.n * a.d) * (s.d * s.d)) by (nonlinear_arith);
    assert((s.n * b.d) * (a.d * s.d) == (s.n * s.d) * (a.d * b.d)) by (nonlinear_arith);
}

/// Value equality is a congruence for subtraction.
pub proof fn lemma_feq_sub_congr(a: Frac, b: Frac, s: Frac)
    requires
        feq(a, b),
    ensures
        feq(fsub(a, s), fsub(b, s)),
{
    vstd::arithmetic::mul::lemma_mul_is_distributive_sub_other_way(b.d * s.d, a.n * s.d, s.n * a.d);
    vstd::arithmetic::mul::lemma_mul_is_distributive_sub_other_way(a.d * s.d, b.n * s.d, s.n * b.d);
    assert((a.n * s.d) * (b.d * s.d) == (a.n * b.d) * (s.d * s.d)) by (nonlinear_arith);
    assert((s.n * a.d) * (b.d * s.d) == (s.n * s.d) * (a.d * b.d)) by (nonlinear_arith);
    assert((b.n * s.d) * (a.d * s.d) == (b.n * a.d) * (s.d * s.d)) by (nonlinear_arith);
    assert((s.n * b.d) * (a.d * s.d) == (s.n * s.d) * (a.d * b.d)) by (nonlinear_arith);
}

/// The product of two integers bounded by `m` in magnitude is bounded by
/// `m * m`.
pub proof fn lemma_mul_bounds(a: int, b: int, m: int)
    by (nonlinear_arith)
    requires
        0 <= m,
        -m <= a <= m,
        -m <= b <= m,
    ensures
        -(m * m) <= a * b <= m * m,
{
}

/// The product of two positive integers is positive.
pub proof fn lemma_pos_mul(a: int, b: int)
    by (nonlinear_arith)
    requires
        a >= 1,
        b >= 1,
    ensures
        a * b >= 1,
{
}

/// The product of two nonnegative integers is nonnegative.
pub proof fn lemma_nonneg_mul(a: int, b: int)
    by (nonlinear_arith)
    requires
        a >= 0,
        b >= 0,
    ensures
        a * b >= 0,
{
}

/// The product of two nonzero integers is nonzero.
pub proof fn lemma_mul_nonzero(a: int, b: int)
    by (nonlinear_arith)
    requires
        a != 0,
        b != 0,
    ensures
        a * b != 0,
{
}

} // verus!
