//! Exact rational scalars.
//!
//! Every physical quantity in this crate is a ratio of two machine integers.
//! The mathematical value of a scalar is modelled by [`Frac`], an unbounded
//! numerator/denominator pair; the executable type [`Rat`] stores a bounded,
//! sign-normalized and reduced representative.  Operations that could leave
//! the representable range return `None` instead of overflowing, and their
//! contracts state exactly when that happens.

use vstd::arithmetic::div_mod::*;
use vstd::prelude::*;

verus! {

/// Mathematical value of a scalar: an unbounded fraction.  `d` is kept
/// positive for well-formed values; `frac_eq` compares by cross
/// multiplication so a value is an equivalence class of pairs.
pub struct Frac {
    pub n: int,
    pub d: int,
}

/// Absolute value of an unbounded integer.
pub open spec fn iabs(x: int) -> int {
    if x < 0 {
        -x
    } else {
        x
    }
}

/// Greatest common divisor by Euclid's rule.
pub open spec fn gcd(a: nat, b: nat) -> nat
    decreases b,
{
    if b == 0 {
        a
    } else {
        gcd(b, a % b)
    }
}

/// A fraction is well formed when its denominator is positive.
pub open spec fn frac_ok(q: Frac) -> bool {
    q.d > 0
}

/// Value equality of fractions by cross multiplication.
pub open spec fn frac_eq(a: Frac, b: Frac) -> bool {
    a.n * b.d == b.n * a.d
}

/// Exact sum of two fractions.
pub open spec fn frac_add(a: Frac, b: Frac) -> Frac {
    Frac { n: a.n * b.d + b.n * a.d, d: a.d * b.d }
}

/// Exact difference of two fractions.
pub open spec fn frac_sub(a: Frac, b: Frac) -> Frac {
    Frac { n: a.n * b.d - b.n * a.d, d: a.d * b.d }
}

/// Exact product of two fractions.
pub open spec fn frac_mul(a: Frac, b: Frac) -> Frac {
    Frac { n: a.n * b.n, d: a.d * b.d }
}

/// Exact quotient of two fractions; the sign of the denominator is fixed up
/// by normalization.
pub open spec fn frac_div(a: Frac, b: Frac) -> Frac {
    Frac { n: a.n * b.d, d: a.d * b.n }
}

/// Exact negation of a fraction.
pub open spec fn frac_neg(a: Frac) -> Frac {
    Frac { n: -a.n, d: a.d }
}

/// Ordering of well-formed fractions.
pub open spec fn frac_le(a: Frac, b: Frac) -> bool {
    a.n * b.d <= b.n * a.d
}

/// The fraction with value zero.
pub open spec fn frac_zero() -> Frac {
    Frac { n: 0, d: 1 }
}

/// The fraction with value one.
pub open spec fn frac_one() -> Frac {
    Frac { n: 1, d: 1 }
}

/// The fraction with integer value `n`.
pub open spec fn frac_int(n: int) -> Frac {
    Frac { n: n, d: 1 }
}

/// Largest magnitude a stored numerator or denominator may take.
pub const BOUND: i128 = 0x4000_0000_0000_0000;

/// Largest magnitude an unreduced intermediate numerator or denominator may
/// take before normalization; products and two-term sums of bounded values
/// stay within it.
pub const RAW_BOUND: i128 = 0x2000_0000_0000_0000_0000_0000_0000_0000;

/// Sign normalization followed by division of both parts by their greatest
/// common divisor: the canonical representative of a fraction's value.
pub open spec fn norm(q: Frac) -> Frac {
    let n = if q.d < 0 {
        -q.n
    } else {
        q.n
    };
    let d = if q.d < 0 {
        -q.d
    } else {
        q.d
    };
    let g = gcd(iabs(n) as nat, d as nat) as int;
    if g == 0 {
        Frac { n: n, d: d }
    } else {
        Frac { n: n / g, d: d / g }
    }
}

/// Whether a fraction's parts fit in the stored range.
pub open spec fn fits(q: Frac) -> bool {
    -(BOUND as int) <= q.n <= BOUND as int && q.d <= BOUND as int
}

/// Result of a checked operation on fraction values: the canonical
/// representative when it fits, nothing otherwise.
pub open spec fn chk(q: Frac) -> Option<Frac> {
    if fits(norm(q)) {
        Some(norm(q))
    } else {
        None
    }
}

/// The fraction values behind an optional scalar.
pub open spec fn rat_opt(r: Option<Rat>) -> Option<Frac> {
    match r {
        Some(c) => Some(c@),
        None => None,
    }
}

/// An exact rational scalar: a reduced fraction with positive denominator,
/// both parts bounded by [`BOUND`].
#[derive(Clone, Copy, Debug, PartialEq, Eq, Structural)]
pub struct Rat {
    n: i128,
    d: i128,
}

impl View for Rat {
    type V = Frac;

    closed spec fn view(&self) -> Frac {
        Frac { n: self.n as int, d: self.d as int }
    }
}

pub proof fn lemma_gcd_pos(a: nat, b: nat)
    requires
        a > 0 || b > 0,
    ensures
        gcd(a, b) > 0,
    decreases b,
{
    if b > 0 {
        if a % b > 0 || b > 0 {
            lemma_gcd_pos(b, a % b);
        }
    }
}

pub proof fn lemma_gcd_divides(a: nat, b: nat)
    requires
        gcd(a, b) > 0,
    ensures
        a % gcd(a, b) == 0,
        b % gcd(a, b) == 0,
    decreases b,
{
    let g = gcd(a, b) as int;
    if b == 0 {
        lemma_mod_self_0(a as int);
        lemma_small_mod(0, a);
    } else {
        lemma_gcd_divides(b, a % b);
        assert(g == gcd(b, a % b));
        // a == (a / b) * b + a % b, and g divides both b and a % b.
        let k = (a as int) / (b as int);
        lemma_fundamental_div_mod(a as int, b as int);
        lemma_mul_mod_noop_right(k, b as int, g);
        assert(k * ((b as int) % g) == 0) by (nonlinear_arith)
            requires
                (b as int) % g == 0,
        ;
        lemma_small_mod(0, g as nat);
        assert((k * (b as int)) % g == 0);
        lemma_add_mod_noop(k * (b as int), (a % b) as int, g);
        assert((k * (b as int) + (a % b) as int) % g == 0);
        assert(a as int == k * (b as int) + (a % b) as int);
    }
}

/// Normalization keeps a fraction's value and makes the denominator
/// positive.
pub proof fn lemma_norm_ok(q: Frac)
    requires
        q.d != 0,
    ensures
        frac_ok(norm(q)),
        frac_eq(norm(q), q),
{
    let n1 = if q.d < 0 {
        -q.n
    } else {
        q.n
    };
    let d1 = if q.d < 0 {
        -q.d
    } else {
        q.d
    };
    assert(n1 * q.d == q.n * d1) by (nonlinear_arith)
        requires
            (q.d < 0 && n1 == -q.n && d1 == -q.d) || (q.d >= 0 && n1 == q.n && d1 == q.d),
    ;
    let m = iabs(n1) as nat;
    lemma_gcd_pos(m, d1 as nat);
    let g = gcd(m, d1 as nat) as int;
    lemma_gcd_divides(m, d1 as nat);
    lemma_fundamental_div_mod(m as int, g);
    lemma_fundamental_div_mod(d1, g);
    let a = (m as int) / g;
    let b = d1 / g;
    if n1 < 0 {
        assert(n1 == g * (-a) + 0) by (nonlinear_arith)
            requires
                n1 == -(m as int),
                m as int == g * a,
        ;
        lemma_fundamental_div_mod_converse(n1, g, -a, 0);
        assert(n1 / g == -a);
    } else {
        assert(n1 / g == a);
    }
    assert(b > 0) by (nonlinear_arith)
        requires
            d1 == g * b,
            d1 > 0,
            g > 0,
    ;
    assert((n1 / g) * d1 == n1 * b) by (nonlinear_arith)
        requires
            n1 == g * (n1 / g),
            d1 == g * b,
    ;
    assert(norm(q) == Frac { n: n1 / g, d: b });
    assert((n1 / g) * q.d == q.n * b) by (nonlinear_arith)
        requires
            (n1 / g) * d1 == n1 * b,
            n1 * q.d == q.n * d1,
            d1 != 0,
    ;
}

/// A checked result, when present, is well formed and keeps the exact value
/// of the raw fraction.
pub proof fn lemma_chk_some(q: Frac)
    requires
        q.d != 0,
    ensures
        chk(q) matches Some(c) ==> frac_ok(c) && frac_eq(c, q) && fits(c),
{
    lemma_norm_ok(q);
}

/// Value equality of fractions is transitive through a fraction with a
/// nonzero denominator.
pub proof fn lemma_frac_eq_trans(a: Frac, b: Frac, c: Frac)
    by (nonlinear_arith)
    requires
        frac_eq(a, b),
        frac_eq(b, c),
        b.d != 0,
    ensures
        frac_eq(a, c),
{
}

/// Fractions with equal values and positive denominators agree on the sign
/// of the numerator.
pub proof fn lemma_frac_eq_sign(a: Frac, b: Frac)
    by (nonlinear_arith)
    requires
        frac_eq(a, b),
        a.d > 0,
        b.d > 0,
    ensures
        a.n > 0 <==> b.n > 0,
        a.n == 0 <==> b.n == 0,
        a.n < 0 <==> b.n < 0,
{
}

/// Addition of fractions respects value equality.
pub proof fn lemma_frac_add_congr(a: Frac, a2: Frac, b: Frac, b2: Frac)
    requires
        frac_eq(a, a2),
        frac_eq(b, b2),
        a.d != 0,
        a2.d != 0,
        b.d != 0,
        b2.d != 0,
    ensures
        frac_eq(frac_add(a, b), frac_add(a2, b2)),
{
    vstd::arithmetic::mul::lemma_mul_is_distributive_add_other_way(
        a2.d * b2.d,
        a.n * b.d,
        b.n * a.d,
    );
    assert((a.n * b.d) * (a2.d * b2.d) == (a.n * a2.d) * (b.d * b2.d)) by (nonlinear_arith);
    assert((a.n * a2.d) * (b.d * b2.d) == (a2.n * a.d) * (b.d * b2.d)) by (nonlinear_arith)
        requires
            a.n * a2.d == a2.n * a.d,
    ;
    assert((a2.n * a.d) * (b.d * b2.d) == (a2.n * b2.d) * (a.d * b.d)) by (nonlinear_arith);
    assert((b.n * a.d) * (a2.d * b2.d) == (b.n * b2.d) * (a.d * a2.d)) by (nonlinear_arith);
    assert((b.n * b2.d) * (a.d * a2.d) == (b2.n * b.d) * (a.d * a2.d)) by (nonlinear_arith)
        requires
            b.n * b2.d == b2.n * b.d,
    ;
    assert((b2.n * b.d) * (a.d * a2.d) == (b2.n * a2.d) * (a.d * b.d)) by (nonlinear_arith);
    vstd::arithmetic::mul::lemma_mul_is_distributive_add_other_way(
        a.d * b.d,
        a2.n * b2.d,
        b2.n * a2.d,
    );
}

/// Subtraction of fractions respects value equality.
pub proof fn lemma_frac_sub_congr(a: Frac, a2: Frac, b: Frac, b2: Frac)
    requires
        frac_eq(a, a2),
        frac_eq(b, b2),
        a.d != 0,
        a2.d != 0,
        b.d != 0,
        b2.d != 0,
    ensures
        frac_eq(frac_sub(a, b), frac_sub(a2, b2)),
{
    vstd::arithmetic::mul::lemma_mul_is_distributive_sub_other_way(
        a2.d * b2.d,
        a.n * b.d,
        b.n * a.d,
    );
    assert((a.n * b.d) * (a2.d * b2.d) == (a.n * a2.d) * (b.d * b2.d)) by (nonlinear_arith);
    assert((a.n * a2.d) * (b.d * b2.d) == (a2.n * a.d) * (b.d * b2.d)) by (nonlinear_arith)
        requires
            a.n * a2.d == a2.n * a.d,
    ;
    assert((a2.n * a.d) * (b.d * b2.d) == (a2.n * b2.d) * (a.d * b.d)) by (nonlinear_arith);
    assert((b.n * a.d) * (a2.d * b2.d) == (b.n * b2.d) * (a.d * a2.d)) by (nonlinear_arith);
    assert((b.n * b2.d) * (a.d * a2.d) == (b2.n * b.d) * (a.d * a2.d)) by (nonlinear_arith)
        requires
            b.n * b2.d == b2.n * b.d,
    ;
    assert((b2.n * b.d) * (a.d * a2.d) == (b2.n * a2.d) * (a.d * b.d)) by (nonlinear_arith);
    vstd::arithmetic::mul::lemma_mul_is_distributive_sub_other_way(
        a.d * b.d,
        a2.n * b2.d,
        b2.n * a2.d,
    );
}

/// Multiplication of fractions respects value equality.
pub proof fn lemma_frac_mul_congr(a: Frac, a2: Frac, b: Frac, b2: Frac)
    requires
        frac_eq(a, a2),
        frac_eq(b, b2),
        a.d != 0,
        a2.d != 0,
        b.d != 0,
        b2.d != 0,
    ensures
        frac_eq(frac_mul(a, b), frac_mul(a2, b2)),
{
    assert((a.n * b.n) * (a2.d * b2.d) == (a.n * a2.d) * (b.n * b2.d)) by (nonlinear_arith);
    assert((a.n * a2.d) * (b.n * b2.d) == (a2.n * a.d) * (b2.n * b.d)) by (nonlinear_arith)
        requires
            a.n * a2.d == a2.n * a.d,
            b.n * b2.d == b2.n * b.d,
    ;
    assert((a2.n * a.d) * (b2.n * b.d) == (a2.n * b2.n) * (a.d * b.d)) by (nonlinear_arith);
}

/// Division of fractions respects value equality when the divisors are
/// nonzero.
pub proof fn lemma_frac_div_congr(a: Frac, a2: Frac, b: Frac, b2: Frac)
    requires
        frac_eq(a, a2),
        frac_eq(b, b2),
        a.d != 0,
        a2.d != 0,
        b.d != 0,
        b2.d != 0,
        b.n != 0,
        b2.n != 0,
    ensures
        frac_eq(frac_div(a, b), frac_div(a2, b2)),
{
    assert((a.n * b.d) * (a2.d * b2.n) == (a.n * a2.d) * (b.d * b2.n)) by (nonlinear_arith);
    assert((a.n * a2.d) * (b.d * b2.n) == (a2.n * a.d) * (b.n * b2.d)) by (nonlinear_arith)
        requires
            a.n * a2.d == a2.n * a.d,
            b.n * b2.d == b2.n * b.d,
    ;
    assert((a2.n * a.d) * (b.n * b2.d) == (a2.n * b2.d) * (a.d * b.n)) by (nonlinear_arith);
}

/// A checked product of two fractions with nonzero denominators is well
/// formed and keeps the exact product value.
pub proof fn lemma_chk_mul_ok(a: Frac, b: Frac)
    requires
        a.d != 0,
        b.d != 0,
    ensures
        frac_mul(a, b).d != 0,
        chk(frac_mul(a, b)) matches Some(c) ==> frac_ok(c) && frac_eq(c, frac_mul(a, b)),
{
    assert(a.d * b.d != 0) by (nonlinear_arith)
        requires
            a.d != 0,
            b.d != 0,
    ;
    lemma_chk_some(frac_mul(a, b));
}

/// A checked sum of two fractions with nonzero denominators is well
/// formed and keeps the exact sum value.
pub proof fn lemma_chk_add_ok(a: Frac, b: Frac)
    requires
        a.d != 0,
        b.d != 0,
    ensures
        frac_add(a, b).d != 0,
        chk(frac_add(a, b)) matches Some(c) ==> frac_ok(c) && frac_eq(c, frac_add(a, b)),
{
    assert(a.d * b.d != 0) by (nonlinear_arith)
        requires
            a.d != 0,
            b.d != 0,
    ;
    lemma_chk_some(frac_add(a, b));
}

/// A checked difference of two fractions with nonzero denominators is
/// well formed and keeps the exact difference value.
pub proof fn lemma_chk_sub_ok(a: Frac, b: Frac)
    requires
        a.d != 0,
        b.d != 0,
    ensures
        frac_sub(a, b).d != 0,
        chk(frac_sub(a, b)) matches Some(c) ==> frac_ok(c) && frac_eq(c, frac_sub(a, b)),
{
    assert(a.d * b.d != 0) by (nonlinear_arith)
        requires
            a.d != 0,
            b.d != 0,
    ;
    lemma_chk_some(frac_sub(a, b));
}

/// The fraction one is already reduced, so checking it returns it
/// unchanged.
pub proof fn lemma_chk_one()
    ensures
        chk(frac_one()) == Some(frac_one()),
{
    reveal_with_fuel(gcd, 3);
    assert(gcd(1, 1) == 1);
    lemma_div_basics(1);
}

/// A checked result whose raw numerator is zero is exactly the zero
/// fraction.
pub proof fn lemma_chk_zero_num(q: Frac)
    requires
        q.n == 0,
        q.d > 0,
    ensures
        chk(q) == Some(frac_zero()),
{
    reveal_with_fuel(gcd, 3);
    lemma_small_mod(0, q.d as nat);
    assert(gcd(iabs(0) as nat, q.d as nat) == q.d as nat);
    lemma_div_basics(q.d);
    assert(norm(q) == frac_zero());
}

/// `|x| <= bx` and `|y| <= by` bound the product `x * y` by `bx * by`.
proof fn lemma_mul_magnitude(x: int, y: int, bx: int, by: int)
    by (nonlinear_arith)
    requires
        -bx <= x <= bx,
        -by <= y <= by,
        0 <= bx,
        0 <= by,
    ensures
        -(bx * by) <= x * y <= bx * by,
{
}

/// Euclid's algorithm on machine integers.
fn gcd_u128(a0: u128, b0: u128) -> (g: u128)
    ensures
        g as nat == gcd(a0 as nat, b0 as nat),
{
    let mut a = a0;
    let mut b = b0;
    while b != 0
        invariant
            gcd(a as nat, b as nat) == gcd(a0 as nat, b0 as nat),
        decreases b,
    {
        let t = a % b;
        a = b;
        b = t;
    }
    a
}

impl Rat {
    /// Bounded, sign-normalized, reduced: the stored form every operation
    /// returns.
    pub open spec fn wf(self) -> bool {
        0 < self@.d <= BOUND as int && -(BOUND as int) <= self@.n <= BOUND as int
    }

    /// Reduce a raw fraction to stored form, reporting when the value cannot
    /// be represented.
    fn make(n: i128, d: i128) -> (r: Option<Rat>)
        requires
            d != 0,
            -RAW_BOUND <= n <= RAW_BOUND,
            -RAW_BOUND <= d <= RAW_BOUND,
        ensures
            rat_opt(r) == chk(Frac { n: n as int, d: d as int }),
            r matches Some(c) ==> c.wf(),
    {
        let ghost q0 = Frac { n: n as int, d: d as int };
        let (nn, dd): (i128, i128) = if d < 0 {
            (-n, -d)
        } else {
            (n, d)
        };
        let na: u128 = if nn < 0 {
            (-nn) as u128
        } else {
            nn as u128
        };
        let da: u128 = dd as u128;
        proof {
            assert(na as int == iabs(nn as int));
            lemma_gcd_pos(na as nat, da as nat);
        }
        let g = gcd_u128(na, da);
        let nq = na / g;
        let dq = da / g;
        proof {
            lemma_gcd_divides(na as nat, da as nat);
            // Division is exact, so the reduced pair rebuilds the originals.
            lemma_fundamental_div_mod(na as int, g as int);
            lemma_fundamental_div_mod(da as int, g as int);
            assert(na as int == g as int * (nq as int));
            assert(da as int == g as int * (dq as int));
            if nn < 0 {
                // nn == g * (-nq) + 0 pins the Euclidean quotient of nn by g.
                assert(nn as int == (g as int) * (-(nq as int)) + 0) by (nonlinear_arith)
                    requires
                        nn as int == -(na as int),
                        na as int == g as int * (nq as int),
                ;
                lemma_fundamental_div_mod_converse(nn as int, g as int, -(nq as int), 0);
            } else {
                assert(nn as int / g as int == nq as int);
            }
            assert(dd as int / g as int == dq as int);
            lemma_div_is_ordered_by_denominator(da as int, 1, g as int);
            lemma_div_is_ordered_by_denominator(na as int, 1, g as int);
            assert(norm(q0) == Frac {
                n: if nn < 0 {
                    -(nq as int)
                } else {
                    nq as int
                },
                d: dq as int,
            });
        }
        proof {
            assert(dq as int >= 1) by (nonlinear_arith)
                requires
                    da as int == g as int * (dq as int),
                    da as int > 0,
                    dq as int >= 0,
            ;
        }
        if nq > BOUND as u128 || dq > BOUND as u128 {
            return None;
        }
        let n_out: i128 = if nn < 0 {
            -(nq as i128)
        } else {
            nq as i128
        };
        Some(Rat { n: n_out, d: dq as i128 })
    }

    /// The scalar `n / d`.  `None` when the reduced fraction does not fit in
    /// the stored range.
    pub fn new(n: i64, d: i64) -> (r: Option<Rat>)
        requires
            d != 0,
        ensures
            rat_opt(r) == chk(Frac { n: n as int, d: d as int }),
            r matches Some(c) ==> c.wf(),
    {
        Self::make(n as i128, d as i128)
    }

    /// The scalar with integer value `n`.
    pub fn from_int(n: i32) -> (r: Rat)
        ensures
            r.wf(),
            r@ == (Frac { n: n as int, d: 1 }),
    {
        proof {
            reveal_with_fuel(gcd, 3);
            let m = iabs(n as int) as nat;
            assert(m % 1 == 0) by (nonlinear_arith);
            assert(gcd(m, 1) == 1);
            lemma_div_basics(n as int);
            lemma_div_basics(1);
        }
        Rat { n: n as i128, d: 1 }
    }

    /// The scalar zero.
    pub fn zero() -> (r: Rat)
        ensures
            r.wf(),
            r@ == frac_zero(),
    {
        Rat::from_int(0)
    }

    /// The scalar one.
    pub fn one() -> (r: Rat)
        ensures
            r.wf(),
            r@ == frac_one(),
    {
        Rat::from_int(1)
    }

    /// Exact sum.  `None` exactly when the reduced sum leaves the stored
    /// range.
    pub fn add(self, o: Rat) -> (r: Option<Rat>)
        requires
            self.wf(),
            o.wf(),
        ensures
            rat_opt(r) == chk(frac_add(self@, o@)),
            r matches Some(c) ==> c.wf(),
    {
        proof {
            lemma_mul_magnitude(self@.n, o@.d, BOUND as int, BOUND as int);
            lemma_mul_magnitude(o@.n, self@.d, BOUND as int, BOUND as int);
            lemma_mul_magnitude(self@.d, o@.d, BOUND as int, BOUND as int);
            assert(self@.d * o@.d > 0) by (nonlinear_arith)
                requires
                    self@.d > 0,
                    o@.d > 0,
            ;
        }
        Self::make(self.n * o.d + o.n * self.d, self.d * o.d)
    }

    /// Exact difference.  `None` exactly when the reduced difference leaves
    /// the stored range.
    pub fn sub(self, o: Rat) -> (r: Option<Rat>)
        requires
            self.wf(),
            o.wf(),
        ensures
            rat_opt(r) == chk(frac_sub(self@, o@)),
            r matches Some(c) ==> c.wf(),
    {
        proof {
            lemma_mul_magnitude(self@.n, o@.d, BOUND as int, BOUND as int);
            lemma_mul_magnitude(o@.n, self@.d, BOUND as int, BOUND as int);
            lemma_mul_magnitude(self@.d, o@.d, BOUND as int, BOUND as int);
            assert(self@.d * o@.d > 0) by (nonlinear_arith)
                requires
                    self@.d > 0,
                    o@.d > 0,
            ;
        }
        Self::make(self.n * o.d - o.n * self.d, self.d * o.d)
    }

    /// Exact product.  `None` exactly when the reduced product leaves the
    /// stored range.
    pub fn mul(self, o: Rat) -> (r: Option<Rat>)
        requires
            self.wf(),
            o.wf(),
        ensures
            rat_opt(r) == chk(frac_mul(self@, o@)),
            r matches Some(c) ==> c.wf(),
    {
        proof {
            lemma_mul_magnitude(self@.n, o@.n, BOUND as int, BOUND as int);
            lemma_mul_magnitude(self@.d, o@.d, BOUND as int, BOUND as int);
            assert(self@.d * o@.d > 0) by (nonlinear_arith)
                requires
                    self@.d > 0,
                    o@.d > 0,
            ;
        }
        Self::make(self.n * o.n, self.d * o.d)
    }

    /// Exact quotient.  The divisor must be nonzero; `None` exactly when the
    /// reduced quotient leaves the stored range.
    pub fn div(self, o: Rat) -> (r: Option<Rat>)
        requires
            self.wf(),
            o.wf(),
            o@.n != 0,
        ensures
            rat_opt(r) == chk(frac_div(self@, o@)),
            r matches Some(c) ==> c.wf(),
    {
        proof {
            lemma_mul_magnitude(self@.n, o@.d, BOUND as int, BOUND as int);
            lemma_mul_magnitude(self@.d, o@.n, BOUND as int, BOUND as int);
            assert(self@.d * o@.n != 0) by (nonlinear_arith)
                requires
                    self@.d > 0,
                    o@.n != 0,
            ;
        }
        Self::make(self.n * o.d, self.d * o.n)
    }

    /// Exact negation; never leaves the stored range.
    pub fn neg(self) -> (r: Rat)
        requires
            self.wf(),
        ensures
            r.wf(),
            r@ == frac_neg(self@),
    {
        Rat { n: -self.n, d: self.d }
    }

    /// Whether the value is zero.
    pub fn is_zero(&self) -> (r: bool)
        requires
            self.wf(),
        ensures
            r <==> self@.n == 0,
            r <==> frac_eq(self@, frac_zero()),
    {
        proof {
            assert(self@.n * 1 == self@.n && 0 * self@.d == 0) by (nonlinear_arith);
        }
        self.n == 0
    }

    /// Whether the value is strictly negative.
    pub fn is_neg(&self) -> (r: bool)
        requires
            self.wf(),
        ensures
            r <==> self@.n < 0,
    {
        self.n < 0
    }

    /// Whether `self <= o` as values.
    pub fn le(&self, o: &Rat) -> (r: bool)
        requires
            self.wf(),
            o.wf(),
        ensures
            r == frac_le(self@, o@),
    {
        proof {
            lemma_mul_magnitude(self@.n, o@.d, BOUND as int, BOUND as int);
            lemma_mul_magnitude(o@.n, self@.d, BOUND as int, BOUND as int);
        }
        self.n * o.d <= o.n * self.d
    }

    /// Floor of the square root: the largest scalar of the form `s / d`
    /// (for the stored denominator `d`) whose square does not exceed the
    /// value.  Exact whenever the value is the square of a rational with
    /// the same reduced denominator; in particular exact on squares of
    /// scalars.
    pub fn sqrt_floor(&self) -> (r: Rat)
        requires
            self.wf(),
            self@.n >= 0,
        ensures
            r.wf(),
            Some(r@) == m_sqrt(Some(self@)),
    {
        proof {
            lemma_mul_magnitude(self@.n, self@.d, BOUND as int, BOUND as int);
            assert(self@.n * self@.d >= 0) by (nonlinear_arith)
                requires
                    self@.n >= 0,
                    self@.d > 0,
            ;
        }
        let p: i128 = self.n * self.d;
        let s = isqrt_u128(p as u128);
        let ghost si = s as int;
        proof {
            lemma_mul_magnitude(self@.n, self@.d, BOUND as int, BOUND as int);
            assert(si <= BOUND as int) by (nonlinear_arith)
                requires
                    is_isqrt(si, p as int),
                    p as int <= (BOUND as int) * (BOUND as int),
                    BOUND as int > 0,
            ;
            let q = Frac { n: si, d: self@.d };
            assert(norm(q).d >= 1 && fits(norm(q))) by {
                lemma_gcd_pos(iabs(si) as nat, self@.d as nat);
                let g = gcd(iabs(si) as nat, self@.d as nat) as int;
                lemma_div_is_ordered_by_denominator(si, 1, g);
                lemma_div_is_ordered_by_denominator(self@.d, 1, g);
                lemma_div_basics(si);
                lemma_div_basics(self@.d);
                lemma_div_pos_is_pos(si, g);
                lemma_gcd_divides(iabs(si) as nat, self@.d as nat);
                lemma_fundamental_div_mod(self@.d, g);
                assert(self@.d / g >= 1) by (nonlinear_arith)
                    requires
                        self@.d == g * (self@.d / g),
                        self@.d > 0,
                        g > 0,
                ;
            }
            assert(is_isqrt(si, self@.n * self@.d));
            assert(is_isqrt(sqrt_val(self@.n * self@.d), self@.n * self@.d));
            lemma_isqrt_unique(sqrt_val(self@.n * self@.d), si, self@.n * self@.d);
        }
        let out = Self::make(s as i128, self.d);
        match out {
            Some(c) => c,
            None => vstd::pervasive::unreached(),
        }
    }
}

/// `s` is the floor of the square root of `x`.
pub open spec fn is_isqrt(s: int, x: int) -> bool {
    0 <= s && s * s <= x && x < ((s + 1) * (s + 1))
}

/// The floor of the square root of a nonnegative integer.
pub open spec fn sqrt_val(x: int) -> int {
    choose|t: int| is_isqrt(t, x)
}

/// The floor of the square root is unique.
pub proof fn lemma_isqrt_unique(t1: int, t2: int, x: int)
    by (nonlinear_arith)
    requires
        is_isqrt(t1, x),
        is_isqrt(t2, x),
    ensures
        t1 == t2,
{
}

/// Checked square root of an optional fraction value: the floor square root
/// of `n * d` over the denominator `d`.  Nothing for a negative value.
pub open spec fn m_sqrt(a: Option<Frac>) -> Option<Frac> {
    match a {
        Some(v) => if v.n < 0 {
            None
        } else {
            Some(norm(Frac { n: sqrt_val(v.n * v.d), d: v.d }))
        },
        None => None,
    }
}

/// Floor of the square root of a machine integer, by bisection.
fn isqrt_u128(x: u128) -> (s: u128)
    requires
        x as int <= RAW_BOUND as int,
    ensures
        is_isqrt(s as int, x as int),
{
    let mut lo: u128 = 0;
    let mut hi: u128 = 0x8000_0000_0000_0000;
    proof {
        assert((x as int) < ((hi as int) * (hi as int))) by (nonlinear_arith)
            requires
                hi as int == 0x8000_0000_0000_0000int,
                x as int <= RAW_BOUND as int,
        ;
    }
    while lo + 1 < hi
        invariant
            lo < hi <= 0x8000_0000_0000_0000,
            (lo as int) * (lo as int) <= x as int,
            (x as int) < ((hi as int) * (hi as int)),
        decreases hi - lo,
    {
        let mid = lo + (hi - lo) / 2;
        proof {
            assert((mid as int) * (mid as int) <= 2 * RAW_BOUND as int)
                by (nonlinear_arith)
                requires
                    0 <= mid as int <= 0x8000_0000_0000_0000int,
            ;
        }
        if mid * mid <= x {
            lo = mid;
        } else {
            hi = mid;
        }
    }
    lo
}

} // verus!
