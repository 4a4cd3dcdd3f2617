//! Exact rational scalars.
//!
//! Every physical quantity in this crate is a rational number: a pair of a
//! signed numerator and a positive denominator, not necessarily in lowest
//! terms.  Arithmetic is exact; an operation whose raw result no longer fits
//! the machine word returns `None` instead of rounding.  Contracts speak of
//! the mathematical fraction behind a scalar (`Frac`), and value equality of
//! fractions is `frac_eq`, equality of cross products.
//!
//! Scalars are not brought to lowest terms, so denominators grow as exact
//! computations deepen; hosts that run long simulations should feed values
//! in lowest terms and re-normalize state between ticks through `new`.

use vstd::prelude::*;

verus! {

/// Mathematical value of a scalar: an integer fraction.  Well-formed values
/// keep the denominator positive, so the sign lives in the numerator.
pub ghost struct Frac {
    pub n: int,
    pub d: int,
}

/// A fraction whose denominator is positive.
pub open spec fn frac_wf(a: Frac) -> bool {
    a.d > 0
}

/// `a` and `b` stand for the same rational number.
pub open spec fn frac_eq(a: Frac, b: Frac) -> bool {
    a.n * b.d == b.n * a.d
}

pub open spec fn frac_add(a: Frac, b: Frac) -> Frac {
    Frac { n: a.n * b.d + b.n * a.d, d: a.d * b.d }
}

pub open spec fn frac_sub(a: Frac, b: Frac) -> Frac {
    Frac { n: a.n * b.d - b.n * a.d, d: a.d * b.d }
}

pub open spec fn frac_mul(a: Frac, b: Frac) -> Frac {
    Frac { n: a.n * b.n, d: a.d * b.d }
}

pub open spec fn frac_neg(a: Frac) -> Frac {
    Frac { n: -a.n, d: a.d }
}

/// Exact division; the sign of the divisor's numerator moves into the
/// result's numerator so that a well-formed divisor with nonzero value gives
/// a well-formed result.
pub open spec fn frac_div(a: Frac, b: Frac) -> Frac {
    if b.n >= 0 {
        Frac { n: a.n * b.d, d: a.d * b.n }
    } else {
        Frac { n: -(a.n * b.d), d: a.d * -b.n }
    }
}

pub open spec fn frac_int(i: int) -> Frac {
    Frac { n: i, d: 1 }
}

pub open spec fn frac_is_zero(a: Frac) -> bool {
    a.n == 0
}

/// The raw fraction can be carried by a `Rat`: numerator strictly between
/// the extremes of `i64` (so negation stays in range) and denominator
/// positive and within `i64`.
pub open spec fn frac_fits(a: Frac) -> bool {
    &&& -(i64::MAX as int) <= a.n <= i64::MAX as int
    &&& 0 < a.d <= i64::MAX as int
}

/// An exact rational scalar.
#[derive(Clone, Copy, Debug)]
pub struct Rat {
    num: i64,
    den: i64,
}

impl View for Rat {
    type V = Frac;

    closed spec fn view(&self) -> Frac {
        Frac { n: self.num as int, d: self.den as int }
    }
}

/// Bound on a product from bounds on its factors.
proof fn lemma_mul_bound(a: int, b: int, m: int) by (nonlinear_arith)
    requires
        -m <= a <= m,
        -m <= b <= m,
        0 <= m,
    ensures
        -(m * m) <= a * b <= m * m,
{
}

/// A product of positives is positive.
proof fn lemma_mul_pos(a: int, b: int) by (nonlinear_arith)
    requires
        a > 0,
        b > 0,
    ensures
        a * b > 0,
{
}

impl Rat {
    /// Denominator positive, numerator strictly above `i64::MIN` so that
    /// negation never overflows.
    pub closed spec fn wf(&self) -> bool {
        self.den > 0 && self.num > i64::MIN
    }

    /// Publishes that well-formedness bounds the fraction behind a scalar.
    pub proof fn lemma_wf_frac(&self)
        requires
            self.wf(),
        ensures
            frac_wf(self@),
            frac_fits(self@),
    {
    }

    /// Carrier for an exactly known raw fraction with positive denominator.
    fn from_i128(n: i128, d: i128) -> (r: Option<Rat>)
        requires
            d > 0,
        ensures
            r matches Some(v) ==> v.wf() && v@ == (Frac { n: n as int, d: d as int }),
            r is Some <==> frac_fits(Frac { n: n as int, d: d as int }),
    {
        if -(i64::MAX as i128) <= n && n <= i64::MAX as i128 && d <= i64::MAX as i128 {
            Some(Rat { num: n as i64, den: d as i64 })
        } else {
            None
        }
    }

    /// Builds the scalar `num / den`; `None` when `den` is zero (or the
    /// sign-normalized pair leaves the machine range).
    pub fn new(num: i64, den: i64) -> (r: Option<Rat>)
        ensures
            den == 0 ==> r is None,
            den > 0 ==> (r matches Some(v) ==> v.wf() && v@ == (Frac { n: num as int, d: den as int })),
            den > 0 ==> ((r is Some) <==> frac_fits(Frac { n: num as int, d: den as int })),
            den < 0 ==> (r matches Some(v) ==> v.wf() && v@ == (Frac { n: -(num as int), d: -(den as int) })),
            den < 0 ==> ((r is Some) <==> frac_fits(Frac { n: -(num as int), d: -(den as int) })),
    {
        let n: i128 = num as i128;
        let d: i128 = den as i128;
        if d > 0 {
            Rat::from_i128(n, d)
        } else if d < 0 {
            Rat::from_i128(-n, -d)
        } else {
            None
        }
    }

    /// The scalar `num / den` for arguments already known to be in range.
    pub fn from_parts(num: i64, den: i64) -> (r: Rat)
        requires
            den > 0,
            num > i64::MIN,
        ensures
            r.wf(),
            r@ == (Frac { n: num as int, d: den as int }),
    {
        Rat { num, den }
    }

    /// The integer `i` as a scalar.
    pub fn from_int(i: i32) -> (r: Rat)
        ensures
            r.wf(),
            r@ == frac_int(i as int),
    {
        Rat { num: i as i64, den: 1 }
    }

    /// The scalar zero.
    pub fn zero() -> (r: Rat)
        ensures
            r.wf(),
            r@ == frac_int(0),
            frac_is_zero(r@),
    {
        Rat { num: 0, den: 1 }
    }

    /// The scalar one.
    pub fn one() -> (r: Rat)
        ensures
            r.wf(),
            r@ == frac_int(1),
    {
        Rat { num: 1, den: 1 }
    }

    pub fn num(&self) -> (r: i64)
        ensures
            r as int == self@.n,
    {
        self.num
    }

    pub fn den(&self) -> (r: i64)
        ensures
            r as int == self@.d,
    {
        self.den
    }

    /// Whether the scalar is exactly zero.
    pub fn is_zero(&self) -> (r: bool)
        requires
            self.wf(),
        ensures
            r == frac_is_zero(self@),
    {
        self.num == 0
    }

    /// Exact value equality, independent of the representation.
    pub fn eq_val(&self, rhs: &Rat) -> (r: bool)
        requires
            self.wf(),
            rhs.wf(),
        ensures
            r == frac_eq(self@, rhs@),
    {
        proof {
            lemma_mul_bound(self.num as int, rhs.den as int, i64::MAX as int);
            lemma_mul_bound(rhs.num as int, self.den as int, i64::MAX as int);
        }
        (self.num as i128) * (rhs.den as i128) == (rhs.num as i128) * (self.den as i128)
    }

    /// Exact sum; `None` when the raw result leaves the machine range.
    pub fn add(&self, rhs: &Rat) -> (r: Option<Rat>)
        requires
            self.wf(),
            rhs.wf(),
        ensures
            r matches Some(v) ==> v.wf() && v@ == frac_add(self@, rhs@),
            r is Some <==> frac_fits(frac_add(self@, rhs@)),
    {
        proof {
            lemma_mul_bound(self.num as int, rhs.den as int, i64::MAX as int);
            lemma_mul_bound(rhs.num as int, self.den as int, i64::MAX as int);
            lemma_mul_bound(self.den as int, rhs.den as int, i64::MAX as int);
            lemma_mul_pos(self.den as int, rhs.den as int);
        }
        let n: i128 = (self.num as i128) * (rhs.den as i128) + (rhs.num as i128) * (self.den as i128);
        let d: i128 = (self.den as i128) * (rhs.den as i128);
        Rat::from_i128(n, d)
    }

    /// Exact difference; `None` when the raw result leaves the machine range.
    pub fn sub(&self, rhs: &Rat) -> (r: Option<Rat>)
        requires
            self.wf(),
            rhs.wf(),
        ensures
            r matches Some(v) ==> v.wf() && v@ == frac_sub(self@, rhs@),
            r is Some <==> frac_fits(frac_sub(self@, rhs@)),
    {
        proof {
            lemma_mul_bound(self.num as int, rhs.den as int, i64::MAX as int);
            lemma_mul_bound(rhs.num as int, self.den as int, i64::MAX as int);
            lemma_mul_bound(self.den as int, rhs.den as int, i64::MAX as int);
            lemma_mul_pos(self.den as int, rhs.den as int);
        }
        let n: i128 = (self.num as i128) * (rhs.den as i128) - (rhs.num as i128) * (self.den as i128);
        let d: i128 = (self.den as i128) * (rhs.den as i128);
        Rat::from_i128(n, d)
    }

    /// Exact product; `None` when the raw result leaves the machine range.
    pub fn mul(&self, rhs: &Rat) -> (r: Option<Rat>)
        requires
            self.wf(),
            rhs.wf(),
        ensures
            r matches Some(v) ==> v.wf() && v@ == frac_mul(self@, rhs@),
            r is Some <==> frac_fits(frac_mul(self@, rhs@)),
    {
        proof {
            lemma_mul_bound(self.num as int, rhs.num as int, i64::MAX as int);
            lemma_mul_bound(self.den as int, rhs.den as int, i64::MAX as int);
            lemma_mul_pos(self.den as int, rhs.den as int);
        }
        let n: i128 = (self.num as i128) * (rhs.num as i128);
        let d: i128 = (self.den as i128) * (rhs.den as i128);
        Rat::from_i128(n, d)
    }

    /// Exact quotient; `None` when the divisor is zero or the raw result
    /// leaves the machine range.
    pub fn div(&self, rhs: &Rat) -> (r: Option<Rat>)
        requires
            self.wf(),
            rhs.wf(),
        ensures
            r matches Some(v) ==> v.wf() && v@ == frac_div(self@, rhs@),
            r is Some <==> frac_fits(frac_div(self@, rhs@)),
            frac_is_zero(rhs@) ==> r is None,
    {
        proof {
            lemma_mul_bound(self.num as int, rhs.den as int, i64::MAX as int);
            lemma_mul_bound(self.den as int, rhs.num as int, i64::MAX as int);
            if rhs.num > 0 {
                lemma_mul_pos(self.den as int, rhs.num as int);
            }
            if rhs.num < 0 {
                lemma_mul_pos(self.den as int, -(rhs.num as int));
                assert(self.den as int * -(rhs.num as int) == -(self.den as int * rhs.num as int))
                    by (nonlinear_arith);
            }
        }
        let n: i128 = (self.num as i128) * (rhs.den as i128);
        let d: i128 = (self.den as i128) * (rhs.num as i128);
        if rhs.num > 0 {
            Rat::from_i128(n, d)
        } else if rhs.num < 0 {
            Rat::from_i128(-n, -d)
        } else {
            None
        }
    }

    /// Exact negation; total because well-formed numerators avoid `i64::MIN`.
    pub fn neg(&self) -> (r: Rat)
        requires
            self.wf(),
        ensures
            r.wf(),
            r@ == frac_neg(self@),
    {
        Rat { num: -self.num, den: self.den }
    }
}

/// Value equality is transitive over well-formed fractions.
pub proof fn lemma_frac_eq_trans(a: Frac, b: Frac, c: Frac) by (nonlinear_arith)
    requires
        frac_wf(a),
        frac_wf(b),
        frac_wf(c),
        frac_eq(a, b),
        frac_eq(b, c),
    ensures
        frac_eq(a, c),
{
}

/// Rearranges a product of four factors into paired form.
proof fn lemma_mul_shuffle4(w: int, x: int, y: int, z: int) by (nonlinear_arith)
    ensures
        (w * x) * (y * z) == (w * y) * (x * z),
{
}

/// Distributes a factor over a sum.
proof fn lemma_mul_distribute(p: int, q: int, r: int) by (nonlinear_arith)
    ensures
        (p + q) * r == p * r + q * r,
        (p - q) * r == p * r - q * r,
{
}

/// Addition respects value equality.
pub proof fn lemma_frac_add_congruence(a: Frac, b: Frac, a2: Frac, b2: Frac)
    requires
        frac_wf(a),
        frac_wf(b),
        frac_wf(a2),
        frac_wf(b2),
        frac_eq(a, a2),
        frac_eq(b, b2),
    ensures
        frac_eq(frac_add(a, b), frac_add(a2, b2)),
{
    lemma_mul_distribute(a.n * b.d, b.n * a.d, a2.d * b2.d);
    lemma_mul_distribute(a2.n * b2.d, b2.n * a2.d, a.d * b.d);
    lemma_mul_shuffle4(a.n, b.d, a2.d, b2.d);
    lemma_mul_shuffle4(b.n, a.d, b2.d, a2.d);
    lemma_mul_shuffle4(a2.n, b2.d, a.d, b.d);
    lemma_mul_shuffle4(b2.n, a2.d, b.d, a.d);
    assert((a.n * a2.d) * (b.d * b2.d) == (a2.n * a.d) * (b.d * b2.d));
    assert((b.n * b2.d) * (a.d * a2.d) == (b2.n * b.d) * (a.d * a2.d));
    assert((a2.n * a.d) * (b2.d * b.d) == (a2.n * a.d) * (b.d * b2.d)
        && (b2.n * b.d) * (a2.d * a.d) == (b2.n * b.d) * (a.d * a2.d)) by (nonlinear_arith);
}

/// Subtraction respects value equality.
pub proof fn lemma_frac_sub_congruence(a: Frac, b: Frac, a2: Frac, b2: Frac)
    requires
        frac_wf(a),
        frac_wf(b),
        frac_wf(a2),
        frac_wf(b2),
        frac_eq(a, a2),
        frac_eq(b, b2),
    ensures
        frac_eq(frac_sub(a, b), frac_sub(a2, b2)),
{
    lemma_mul_distribute(a.n * b.d, b.n * a.d, a2.d * b2.d);
    lemma_mul_distribute(a2.n * b2.d, b2.n * a2.d, a.d * b.d);
    lemma_mul_shuffle4(a.n, b.d, a2.d, b2.d);
    lemma_mul_shuffle4(b.n, a.d, b2.d, a2.d);
    lemma_mul_shuffle4(a2.n, b2.d, a.d, b.d);
    lemma_mul_shuffle4(b2.n, a2.d, b.d, a.d);
    assert((a.n * a2.d) * (b.d * b2.d) == (a2.n * a.d) * (b.d * b2.d));
    assert((b.n * b2.d) * (a.d * a2.d) == (b2.n * b.d) * (a.d * a2.d));
    assert((a2.n * a.d) * (b2.d * b.d) == (a2.n * a.d) * (b.d * b2.d)
        && (b2.n * b.d) * (a2.d * a.d) == (b2.n * b.d) * (a.d * a2.d)) by (nonlinear_arith);
}

/// Multiplication respects value equality.
pub proof fn lemma_frac_mul_congruence(a: Frac, b: Frac, a2: Frac, b2: Frac) by (nonlinear_arith)
    requires
        frac_wf(a),
        frac_wf(b),
        frac_wf(a2),
        frac_wf(b2),
        frac_eq(a, a2),
        frac_eq(b, b2),
    ensures
        frac_eq(frac_mul(a, b), frac_mul(a2, b2)),
{
}

/// Well-formed operands give well-formed sums, differences and products.
pub proof fn lemma_frac_ops_wf(a: Frac, b: Frac)
    requires
        frac_wf(a),
        frac_wf(b),
    ensures
        frac_wf(frac_add(a, b)),
        frac_wf(frac_sub(a, b)),
        frac_wf(frac_mul(a, b)),
        frac_wf(frac_neg(a)),
    {
        lemma_mul_pos(a.d, b.d);
    }

/// Division by a nonzero well-formed fraction gives a well-formed fraction.
pub proof fn lemma_frac_div_wf(a: Frac, b: Frac)
    requires
        frac_wf(a),
        frac_wf(b),
        !frac_is_zero(b),
    ensures
        frac_wf(frac_div(a, b)),
{
    if b.n > 0 {
        lemma_mul_pos(a.d, b.n);
    } else {
        lemma_mul_pos(a.d, -b.n);
    }
}

/// Adding a zero-valued fraction on either side leaves the value
/// unchanged, as does subtracting one.
pub proof fn lemma_frac_add_zero(a: Frac, z: Frac) by (nonlinear_arith)
    requires
        frac_wf(a),
        frac_wf(z),
        frac_is_zero(z),
    ensures
        frac_eq(frac_add(a, z), a),
        frac_eq(frac_sub(a, z), a),
        frac_eq(frac_add(z, a), a),
{
}

/// Sums and differences of zero-valued fractions are zero-valued.
pub proof fn lemma_frac_zero_ops(a: Frac, b: Frac) by (nonlinear_arith)
    requires
        frac_is_zero(a),
        frac_is_zero(b),
    ensures
        frac_is_zero(frac_add(a, b)),
        frac_is_zero(frac_sub(a, b)),
{
}

/// Reorders a product of four fractions: `a (b (c d)) = (b (a d)) c`.
pub proof fn lemma_frac_mul_shuffle(a: Frac, b: Frac, c: Frac, d: Frac)
    ensures
        frac_eq(
            frac_mul(a, frac_mul(b, frac_mul(c, d))),
            frac_mul(frac_mul(b, frac_mul(a, d)), c),
        ),
{
    broadcast use vstd::arithmetic::mul::group_mul_properties;

}

/// Rotates a product of three fractions: `b (c a) = a (b c)`.
pub proof fn lemma_frac_mul_rotate(a: Frac, b: Frac, c: Frac)
    ensures
        frac_eq(frac_mul(b, frac_mul(c, a)), frac_mul(a, frac_mul(b, c))),
{
    broadcast use vstd::arithmetic::mul::group_mul_properties;

}

/// Multiplying by one leaves the value unchanged.
pub proof fn lemma_frac_mul_one(a: Frac)
    ensures
        frac_eq(frac_mul(frac_int(1), a), a),
{
    broadcast use vstd::arithmetic::mul::group_mul_properties;

}

/// Multiplying by a zero-valued fraction gives a zero-valued fraction.
pub proof fn lemma_frac_mul_zero(a: Frac, z: Frac)
    requires
        frac_wf(a),
        frac_wf(z),
        frac_is_zero(z),
    ensures
        frac_is_zero(frac_mul(z, a)),
        frac_is_zero(frac_mul(a, z)),
{
}

/// Zero-valued fractions are exactly those equal in value to `0/1`.
pub proof fn lemma_frac_zero_eq(a: Frac)
    requires
        frac_wf(a),
    ensures
        frac_is_zero(a) <==> frac_eq(a, frac_int(0)),
{
}

/// Dividing and then multiplying by the same nonzero fraction is the
/// identity.
pub proof fn lemma_frac_div_cancel(a: Frac, b: Frac) by (nonlinear_arith)
    requires
        frac_wf(a),
        frac_wf(b),
        !frac_is_zero(b),
    ensures
        frac_eq(frac_mul(frac_div(a, b), b), a),
        frac_eq(frac_mul(b, frac_div(a, b)), a),
{
}

/// Addition of fractions is associative in value.
pub proof fn lemma_frac_add_assoc(a: Frac, b: Frac, c: Frac)
    ensures
        frac_eq(frac_add(frac_add(a, b), c), frac_add(a, frac_add(b, c))),
{
    broadcast use vstd::arithmetic::mul::group_mul_properties;

}

/// Scaling distributes over a sum of equal factors:
/// `k1 x + k2 x = (k1 + k2) x`.
pub proof fn lemma_frac_scale_sum(k1: Frac, k2: Frac, x: Frac)
    ensures
        frac_eq(
            frac_add(frac_mul(k1, x), frac_mul(k2, x)),
            frac_mul(frac_add(k1, k2), x),
        ),
{
    broadcast use vstd::arithmetic::mul::group_mul_properties;

}

/// Counting one more step of size `d`: `m d + d = (m + 1) d`.
pub proof fn lemma_frac_int_step(m: int, d: Frac)
    ensures
        frac_eq(frac_add(frac_mul(frac_int(m), d), d), frac_mul(frac_int(m + 1), d)),
{
    broadcast use vstd::arithmetic::mul::group_mul_properties;

}

/// Splitting a span into `m` equal sub-steps and taking all of them adds up
/// to the whole span: `m (t / m) = t` for positive `m`.
pub proof fn lemma_frac_div_whole(m: int, t: Frac)
    requires
        m > 0,
        frac_wf(t),
    ensures
        frac_eq(frac_mul(frac_int(m), frac_div(t, frac_int(m))), t),
{
    broadcast use vstd::arithmetic::mul::group_mul_properties;

}

/// Two equal half-steps amount to one full step.
pub proof fn lemma_frac_halves(delta: Frac, a: Frac) by (nonlinear_arith)
    requires
        frac_wf(delta),
        frac_wf(a),
    ensures
        frac_eq(
            frac_add(
                frac_mul(frac_div(delta, frac_int(2)), a),
                frac_mul(frac_div(delta, frac_int(2)), a),
            ),
            frac_mul(delta, a),
        ),
{
}

} // verus!
