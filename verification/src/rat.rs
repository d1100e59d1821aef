//! Exact rational numbers with a 64-bit numerator and a positive 64-bit
//! denominator. Arithmetic is exact: an operation whose exact result does
//! not fit reports `None` instead of rounding. The mathematical value of a
//! `Rat` is its `RatModel`, an unbounded numerator/denominator pair.

use vstd::prelude::*;

verus! {

/// Mathematical value of a rational: an unbounded numerator/denominator pair.
/// Two models denote the same rational iff `rm_eq` holds.
pub ghost struct RatModel {
    pub n: int,
    pub d: int,
}

/// A model is well formed when its denominator is strictly positive.
pub open spec fn rm_wf(a: RatModel) -> bool {
    a.d > 0
}

/// Equality of the denoted rationals, by cross multiplication.
pub open spec fn rm_eq(a: RatModel, b: RatModel) -> bool {
    a.n * b.d == b.n * a.d
}

/// The rational `i / 1`.
pub open spec fn rm_int(i: int) -> RatModel {
    RatModel { n: i, d: 1 }
}

/// Exact sum `a + b`, without reduction.
pub open spec fn rm_add(a: RatModel, b: RatModel) -> RatModel {
    RatModel { n: a.n * b.d + b.n * a.d, d: a.d * b.d }
}

/// Exact difference `a - b`, without reduction.
pub open spec fn rm_sub(a: RatModel, b: RatModel) -> RatModel {
    RatModel { n: a.n * b.d - b.n * a.d, d: a.d * b.d }
}

/// Exact product `a * b`, without reduction.
pub open spec fn rm_mul(a: RatModel, b: RatModel) -> RatModel {
    RatModel { n: a.n * b.n, d: a.d * b.d }
}

/// Exact quotient `a / b` for a divisor with positive numerator.
pub open spec fn rm_div(a: RatModel, b: RatModel) -> RatModel {
    RatModel { n: a.n * b.d, d: a.d * b.n }
}

/// Whether an unbounded integer fits in an `i64`.
pub open spec fn fits_i64(x: int) -> bool {
    i64::MIN <= x <= i64::MAX
}

/// An exact rational with machine-word numerator and denominator.
#[derive(Clone, Copy, Debug, PartialEq, Eq, Structural)]
pub struct Rat {
    pub num: i64,
    pub den: i64,
}

impl View for Rat {
    type V = RatModel;

    open spec fn view(&self) -> RatModel {
        RatModel { n: self.num as int, d: self.den as int }
    }
}

/// Bound on the magnitude of a product of two `i64` values.
proof fn lemma_i64_product_bound(a: int, b: int)
    by (nonlinear_arith)
    requires
        i64::MIN <= a <= i64::MAX,
        i64::MIN <= b <= i64::MAX,
    ensures
        -0x40000000000000000000000000000000 <= a * b
            <= 0x40000000000000000000000000000000,
{
}

/// Tighter bound when the second factor is positive, so that a sum of two
/// such products still fits in an `i128`.
proof fn lemma_i64_mul_pos_bound(a: int, b: int)
    by (nonlinear_arith)
    requires
        i64::MIN <= a <= i64::MAX,
        1 <= b <= i64::MAX,
    ensures
        -0x3fffffffffffffff8000000000000000 <= a * b <= 0x3fffffffffffffff8000000000000000,
{
}

/// `rm_eq` is transitive over well-formed models.
pub proof fn lemma_rm_eq_trans(a: RatModel, b: RatModel, c: RatModel)
    by (nonlinear_arith)
    requires
        rm_wf(a),
        rm_wf(b),
        rm_wf(c),
        rm_eq(a, b),
        rm_eq(b, c),
    ensures
        rm_eq(a, c),
{
}

/// Multiplying by `z` and dividing by `z` again denotes the original value.
pub proof fn lemma_rm_div_mul_cancel(a: RatModel, z: RatModel)
    by (nonlinear_arith)
    requires
        rm_wf(a),
        rm_wf(z),
        z.n > 0,
    ensures
        rm_eq(rm_div(rm_mul(a, z), z), a),
{
}

/// Adding `p` respects rational equality of the addend.
pub proof fn lemma_rm_add_congruence(p: RatModel, x: RatModel, y: RatModel)
    by (nonlinear_arith)
    requires
        rm_wf(p),
        rm_wf(x),
        rm_wf(y),
        rm_eq(x, y),
    ensures
        rm_eq(rm_add(p, x), rm_add(p, y)),
{
}

/// Adding back a subtracted offset denotes the original value.
pub proof fn lemma_rm_add_sub_cancel(p: RatModel, w: RatModel)
    by (nonlinear_arith)
    requires
        rm_wf(p),
        rm_wf(w),
    ensures
        rm_eq(rm_add(p, rm_sub(w, p)), w),
{
}

/// For a nonnegative dividend, the quotient is below `c` iff the dividend
/// is below `c` divisors.
pub proof fn lemma_div_below(a: int, b: int, c: int)
    requires
        a >= 0,
        b > 0,
        c >= 0,
    ensures
        (a / b < c) <==> (a < c * b),
{
    vstd::arithmetic::div_mod::lemma_fundamental_div_mod(a, b);
    let q = a / b;
    let r = a % b;
    assert(q >= c ==> a >= c * b) by (nonlinear_arith)
        requires
            a == b * q + r,
            r >= 0,
            b > 0,
            c >= 0,
    ;
    assert(q < c ==> a < c * b) by (nonlinear_arith)
        requires
            a == b * q + r,
            r < b,
            b > 0,
            q >= 0,
    ;
}

/// Componentwise monotonicity of products of nonnegative values.
pub proof fn lemma_mul_le(a: int, b: int, c: int, d: int)
    by (nonlinear_arith)
    requires
        0 <= a <= c,
        0 <= b <= d,
    ensures
        a * b <= c * d,
{
}

/// Product of two positive values is positive.
pub proof fn lemma_pos_product(a: int, b: int)
    by (nonlinear_arith)
    requires
        a > 0,
        b > 0,
    ensures
        a * b > 0,
{
}

/// Signed magnitude: the numerator denoted by a sign flag and a magnitude.
spec fn sgn_val(neg: bool, m: int) -> int {
    if neg {
        -m
    } else {
        m
    }
}

/// Cancelling a shared factor `k` from the magnitude and the denominator
/// keeps the denoted rational equal to `n0 / d0`.
proof fn lemma_cancel_shared_factor(neg: bool, m: int, d: int, n0: int, d0: int, k: int)
    requires
        k > 0,
        m >= 0,
        d > 0,
        m % k == 0,
        d % k == 0,
        sgn_val(neg, m) * d0 == n0 * d,
    ensures
        sgn_val(neg, m / k) * d0 == n0 * (d / k),
{
    vstd::arithmetic::div_mod::lemma_fundamental_div_mod(m, k);
    vstd::arithmetic::div_mod::lemma_fundamental_div_mod(d, k);
    assert(m == k * (m / k));
    assert(d == k * (d / k));
    assert(sgn_val(neg, m) == k * sgn_val(neg, m / k)) by (nonlinear_arith)
        requires
            m == k * (m / k),
            sgn_val(neg, m) == if neg { -m } else { m },
            sgn_val(neg, m / k) == if neg { -(m / k) } else { m / k },
    ;
    assert(sgn_val(neg, m / k) * d0 == n0 * (d / k)) by (nonlinear_arith)
        requires
            k > 0,
            sgn_val(neg, m) == k * sgn_val(neg, m / k),
            d == k * (d / k),
            sgn_val(neg, m) * d0 == n0 * d,
    ;
}

/// Builds a `Rat` from an exact wide numerator and positive denominator,
/// reporting `None` when either does not fit in an `i64`.
fn rat_from_parts(n: i128, d: i128) -> (r: Option<Rat>)
    requires
        0 < d,
    ensures
        r is Some <==> fits_i64(n as int) && fits_i64(d as int),
        r is Some ==> (r->0).wf() && (r->0)@ == (RatModel { n: n as int, d: d as int }),
{
    if n >= i64::MIN as i128 && n <= i64::MAX as i128 && d <= i64::MAX as i128 {
        Some(Rat { num: n as i64, den: d as i64 })
    } else {
        None
    }
}

impl Rat {
    /// Well formed: strictly positive denominator.
    pub open spec fn wf(self) -> bool {
        self.den > 0
    }

    /// The rational `i / 1`.
    pub fn from_int(i: i64) -> (r: Rat)
        ensures
            r.wf(),
            r@ == rm_int(i as int),
    {
        Rat { num: i, den: 1 }
    }

    /// Exact sum; `None` exactly when the unreduced exact result overflows.
    pub fn try_add(self, rhs: Rat) -> (r: Option<Rat>)
        requires
            self.wf(),
            rhs.wf(),
        ensures
            r is Some <==> fits_i64(rm_add(self@, rhs@).n) && fits_i64(rm_add(self@, rhs@).d),
            r is Some ==> (r->0).wf() && (r->0)@ == rm_add(self@, rhs@),
    {
        proof {
            lemma_i64_mul_pos_bound(self.num as int, rhs.den as int);
            lemma_i64_mul_pos_bound(rhs.num as int, self.den as int);
            lemma_i64_product_bound(self.den as int, rhs.den as int);
            lemma_pos_product(self.den as int, rhs.den as int);
        }
        let n: i128 = (self.num as i128) * (rhs.den as i128) + (rhs.num as i128) * (self.den as i128);
        let d: i128 = (self.den as i128) * (rhs.den as i128);
        rat_from_parts(n, d)
    }

    /// Exact difference; `None` exactly when the exact result overflows.
    pub fn try_sub(self, rhs: Rat) -> (r: Option<Rat>)
        requires
            self.wf(),
            rhs.wf(),
        ensures
            r is Some <==> fits_i64(rm_sub(self@, rhs@).n) && fits_i64(rm_sub(self@, rhs@).d),
            r is Some ==> (r->0).wf() && (r->0)@ == rm_sub(self@, rhs@),
    {
        proof {
            lemma_i64_mul_pos_bound(self.num as int, rhs.den as int);
            lemma_i64_mul_pos_bound(rhs.num as int, self.den as int);
            lemma_i64_product_bound(self.den as int, rhs.den as int);
            lemma_pos_product(self.den as int, rhs.den as int);
        }
        let n: i128 = (self.num as i128) * (rhs.den as i128) - (rhs.num as i128) * (self.den as i128);
        let d: i128 = (self.den as i128) * (rhs.den as i128);
        rat_from_parts(n, d)
    }

    /// Exact product; `None` exactly when the exact result overflows.
    pub fn try_mul(self, rhs: Rat) -> (r: Option<Rat>)
        requires
            self.wf(),
            rhs.wf(),
        ensures
            r is Some <==> fits_i64(rm_mul(self@, rhs@).n) && fits_i64(rm_mul(self@, rhs@).d),
            r is Some ==> (r->0).wf() && (r->0)@ == rm_mul(self@, rhs@),
    {
        proof {
            lemma_i64_product_bound(self.num as int, rhs.num as int);
            lemma_i64_product_bound(self.den as int, rhs.den as int);
            lemma_pos_product(self.den as int, rhs.den as int);
        }
        let n: i128 = (self.num as i128) * (rhs.num as i128);
        let d: i128 = (self.den as i128) * (rhs.den as i128);
        rat_from_parts(n, d)
    }

    /// Exact quotient by a rational with strictly positive numerator;
    /// `None` exactly when the exact result overflows.
    pub fn try_div(self, rhs: Rat) -> (r: Option<Rat>)
        requires
            self.wf(),
            rhs.wf(),
            rhs@.n > 0,
        ensures
            r is Some <==> fits_i64(rm_div(self@, rhs@).n) && fits_i64(rm_div(self@, rhs@).d),
            r is Some ==> (r->0).wf() && (r->0)@ == rm_div(self@, rhs@),
    {
        proof {
            lemma_i64_mul_pos_bound(self.num as int, rhs.den as int);
            lemma_i64_mul_pos_bound(self.den as int, rhs.num as int);
            lemma_pos_product(self.den as int, rhs.num as int);
        }
        let n: i128 = (self.num as i128) * (rhs.den as i128);
        let d: i128 = (self.den as i128) * (rhs.num as i128);
        rat_from_parts(n, d)
    }

    /// Cancels common factors of 2, 3 and 5 from numerator and denominator.
    /// The denoted value is unchanged; only the representation shrinks.
    /// These are the only prime factors the view-state operations introduce,
    /// so repeated panning keeps denominators small.
    pub fn reduce(self) -> (r: Rat)
        requires
            self.wf(),
        ensures
            r.wf(),
            rm_eq(r@, self@),
    {
        if self.num == i64::MIN {
            return self;
        }
        let neg: bool = self.num < 0;
        let mut m: u64 = if neg {
            (-self.num) as u64
        } else {
            self.num as u64
        };
        let mut d: u64 = self.den as u64;
        loop
            invariant
                0 < d <= 0x7fffffffffffffff,
                m <= 0x7fffffffffffffff,
                self.wf(),
                sgn_val(neg, m as int) * self@.d == self@.n * (d as int),
            decreases d,
        {
            if m % 2 == 0 && d % 2 == 0 {
                proof {
                    lemma_cancel_shared_factor(neg, m as int, d as int, self@.n, self@.d, 2);
                }
                m = m / 2;
                d = d / 2;
            } else if m % 3 == 0 && d % 3 == 0 {
                proof {
                    lemma_cancel_shared_factor(neg, m as int, d as int, self@.n, self@.d, 3);
                }
                m = m / 3;
                d = d / 3;
            } else if m % 5 == 0 && d % 5 == 0 {
                proof {
                    lemma_cancel_shared_factor(neg, m as int, d as int, self@.n, self@.d, 5);
                }
                m = m / 5;
                d = d / 5;
            } else {
                break;
            }
        }
        let rn: i64 = if neg {
            -(m as i64)
        } else {
            m as i64
        };
        Rat { num: rn, den: d as i64 }
    }

    /// Whether two rationals denote the same value.
    pub fn eqv(&self, other: &Rat) -> (r: bool)
        requires
            self.wf(),
            other.wf(),
        ensures
            r == rm_eq(self@, other@),
    {
        proof {
            lemma_i64_mul_pos_bound(self.num as int, other.den as int);
            lemma_i64_mul_pos_bound(other.num as int, self.den as int);
        }
        (self.num as i128) * (other.den as i128) == (other.num as i128) * (self.den as i128)
    }
}

} // verus!
