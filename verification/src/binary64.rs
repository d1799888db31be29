//! Double-precision quantities as plain bit patterns.
//!
//! Angles, frequencies and weights are computed outside of this library; what
//! the library decides about them is how they compare. A [`Binary64`] holds the
//! IEEE 754 binary64 encoding of a quantity, and its model is an exact
//! integer: every finite double is a whole multiple of 2^-1074.

use vstd::arithmetic::power2::{
    lemma2_to64, lemma2_to64_rest, lemma_pow2_adds, lemma_pow2_pos, lemma_pow2_strictly_increases,
    lemma_pow2_unfold, pow2,
};
use vstd::prelude::*;

verus! {

/// Bit pattern of positive infinity; larger magnitudes encode NaNs.
pub const INFINITY_BITS: u64 = 0x7ff0_0000_0000_0000;

/// The sign bit.
pub const SIGN_BIT: u64 = 0x8000_0000_0000_0000;

/// 2^52, the number of fractions per exponent.
pub const FRACTIONS: u64 = 0x0010_0000_0000_0000;

/// A double-precision quantity, by its IEEE 754 binary64 encoding.
#[derive(Debug, Clone, Copy, PartialEq, Eq, Structural, Hash)]
pub struct Binary64 {
    pub bits: u64,
}

/// The encoding of 0.
pub const ZERO_BITS: u64 = 0;

/// The encoding of 1.
pub const ONE_BITS: u64 = 0x3ff0_0000_0000_0000;

/// The magnitude encoded by an exponent and a fraction, in units of 2^-1074.
/// Infinity is given the value that its encoding would have as a number, which
/// lies above every finite magnitude.
pub open spec fn magnitude(exponent: nat, fraction: nat) -> nat {
    if exponent == 0 {
        fraction
    } else {
        (FRACTIONS + fraction) as nat * pow2((exponent - 1) as nat)
    }
}

impl Binary64 {
    /// Is the sign bit set?
    pub open spec fn is_negative(self) -> bool {
        self.bits >= SIGN_BIT
    }

    /// The encoding without its sign bit.
    pub open spec fn unsigned_bits(self) -> nat {
        if self.is_negative() {
            (self.bits - SIGN_BIT) as nat
        } else {
            self.bits as nat
        }
    }

    /// Is this encoding not a number?
    pub open spec fn spec_is_nan(self) -> bool {
        self.unsigned_bits() > INFINITY_BITS
    }

    /// The value in units of 2^-1074. Both zeros have the value 0.
    pub open spec fn value(self) -> int {
        let m = magnitude(self.unsigned_bits() / FRACTIONS as nat, self.unsigned_bits() % FRACTIONS as nat);
        if self.is_negative() {
            -(m as int)
        } else {
            m as int
        }
    }

    /// Does this quantity equal the integer `n`?
    pub open spec fn is_int(self, n: int) -> bool {
        !self.spec_is_nan() && self.value() == n * pow2(1074)
    }

    /// Is this quantity `n / 1000`, as nearly as can be: no further off than half
    /// a unit in its last place?
    pub open spec fn is_thousandths(self, n: int) -> bool {
        let exponent = self.unsigned_bits() / FRACTIONS as nat;
        let error = 1000 * self.value() - n * pow2(1074);
        if n == 0 {
            self.bits == ZERO_BITS
        } else {
            &&& !self.spec_is_nan()
            &&& self.is_negative() == (n < 0)
            &&& exponent >= 1
            &&& -1000 * pow2((exponent - 1) as nat) <= 2 * error <= 1000 * pow2(
                (exponent - 1) as nat,
            )
        }
    }

    /// `self <= other`, which no NaN satisfies.
    pub open spec fn spec_at_most(self, other: Binary64) -> bool {
        !self.spec_is_nan() && !other.spec_is_nan() && self.value() <= other.value()
    }

    /// `self < other`, which no NaN satisfies.
    pub open spec fn spec_below(self, other: Binary64) -> bool {
        !self.spec_is_nan() && !other.spec_is_nan() && self.value() < other.value()
    }

    /// Is `self` within `low` to `high`, both ends included?
    pub open spec fn spec_within(self, low: Binary64, high: Binary64) -> bool {
        low.spec_at_most(self) && self.spec_at_most(high)
    }

    /// The encoding as a signed integer that orders like the values do.
    pub open spec fn spec_order_key(self) -> int {
        if self.is_negative() {
            -(self.unsigned_bits() as int)
        } else {
            self.unsigned_bits() as int
        }
    }

    /// The quantity with that encoding.
    pub fn from_bits(bits: u64) -> (r: Binary64)
        ensures
            r.bits == bits,
    {
        Binary64 { bits }
    }

    /// The quantity `n / 1000`, as nearly as can be.
    pub fn from_thousandths(n: i32) -> (r: Binary64)
        ensures
            r.is_thousandths(n as int),
    {
        if n == 0 {
            return Binary64 { bits: ZERO_BITS };
        }
        let a: u64 = if n < 0 {
            (-(n as i64)) as u64
        } else {
            n as u64
        };
        // The significand has 53 bits.
        let mut m: u64 = a;
        let mut s: u64 = 0;
        proof {
            lemma2_to64();
        }
        while m < 1000 * FRACTIONS
            invariant
                0 < a <= 0x8000_0000,
                m == a * pow2(s as nat),
                0 < m < 2000 * FRACTIONS,
                s <= 62,
            decreases 2000 * FRACTIONS - m,
        {
            proof {
                lemma_pow2_unfold((s + 1) as nat);
                let p = pow2(s as nat);
                assert(a * (2 * p) == 2 * (a * p)) by (nonlinear_arith);
                lemma2_to64_rest();
                if s == 62 {
                    assert(a * p >= p) by (nonlinear_arith)
                        requires
                            a >= 1,
                            p >= 0,
                    ;
                }
            }
            m = m * 2;
            s = s + 1;
        }
        let q: u64 = (m + 500) / 1000;
        let unsigned: u64 = (1074 - s) * FRACTIONS + q;
        let r: Binary64 = Binary64 {
            bits: if n < 0 {
                SIGN_BIT + unsigned
            } else {
                unsigned
            },
        };
        proof {
            let rest = pow2((1074 - s) as nat);
            lemma_pow2_adds(s as nat, (1074 - s) as nat);
            lemma_pow2_unfold((1075 - s) as nat);
            lemma_pow2_pos((1074 - s) as nat);
            assert(FRACTIONS <= q <= 2 * FRACTIONS);
            assert(r.unsigned_bits() == unsigned);
            let exponent = r.unsigned_bits() / FRACTIONS as nat;
            if q < 2 * FRACTIONS {
                assert(exponent == 1075 - s);
                assert(r.unsigned_bits() % FRACTIONS as nat == q - FRACTIONS);
            } else {
                assert(exponent == 1076 - s);
                assert(r.unsigned_bits() % FRACTIONS as nat == 0);
                assert(FRACTIONS * (2 * rest) == q * rest) by (nonlinear_arith)
                    requires
                        q == 2 * FRACTIONS,
                ;
            }
            let magnitude = q * rest;
            assert(r.value() == if n < 0 {
                -magnitude
            } else {
                magnitude
            });
            let p = pow2(s as nat);
            assert(a * (p * rest) == m * rest) by (nonlinear_arith)
                requires
                    m == a * p,
            ;
            let off = 1000 * q - m;
            assert(1000 * magnitude - m * rest == off * rest) by (nonlinear_arith)
                requires
                    magnitude == q * rest,
                    off == 1000 * q - m,
            ;
            assert(-500 * rest <= off * rest <= 500 * rest) by (nonlinear_arith)
                requires
                    -500 <= off <= 500,
                    rest > 0,
            ;
            assert((-(a as int)) * (p * rest) == -(a * (p * rest))) by (nonlinear_arith);
        }
        r
    }

    /// Is this quantity not a number?
    pub fn is_nan(self) -> (r: bool)
        ensures
            r == self.spec_is_nan(),
    {
        let unsigned: u64 = if self.bits >= SIGN_BIT {
            self.bits - SIGN_BIT
        } else {
            self.bits
        };
        unsigned > INFINITY_BITS
    }

    fn order_key(self) -> (r: i64)
        ensures
            r == self.spec_order_key(),
    {
        if self.bits >= SIGN_BIT {
            let unsigned: u64 = self.bits - SIGN_BIT;
            -(unsigned as i64)
        } else {
            self.bits as i64
        }
    }

    /// `self <= other`, as floating-point comparison has it: false where either
    /// side is not a number, and both zeros are equal.
    pub fn at_most(self, other: Binary64) -> (r: bool)
        ensures
            r == self.spec_at_most(other),
    {
        proof {
            lemma_order_key(self, other);
        }
        !self.is_nan() && !other.is_nan() && self.order_key() <= other.order_key()
    }

    /// `self < other`, as floating-point comparison has it.
    pub fn below(self, other: Binary64) -> (r: bool)
        ensures
            r == self.spec_below(other),
    {
        proof {
            lemma_order_key(self, other);
            lemma_order_key(other, self);
        }
        !self.is_nan() && !other.is_nan() && self.order_key() < other.order_key()
    }

    /// Is `self` within `low` to `high`, both ends included?
    pub fn within(self, low: Binary64, high: Binary64) -> (r: bool)
        ensures
            r == self.spec_within(low, high),
    {
        low.at_most(self) && self.at_most(high)
    }
}

/// Encodings without a sign bit order like the magnitudes that they encode.
proof fn lemma_magnitude_increases(a: nat, b: nat)
    requires
        a < b,
    ensures
        magnitude(a / FRACTIONS as nat, a % FRACTIONS as nat) < magnitude(
            b / FRACTIONS as nat,
            b % FRACTIONS as nat,
        ),
{
    let (ea, fa) = (a / FRACTIONS as nat, a % FRACTIONS as nat);
    let (eb, fb) = (b / FRACTIONS as nat, b % FRACTIONS as nat);
    let n = FRACTIONS as nat;
    assert(a == ea * n + fa && b == eb * n + fb);
    assert(ea <= eb);
    if ea == eb {
        assert(fa < fb);
        if ea > 0 {
            let p = pow2((ea - 1) as nat);
            lemma_pow2_pos((ea - 1) as nat);
            assert((n + fa) * p < (n + fb) * p) by (nonlinear_arith)
                requires
                    fa < fb,
                    p > 0,
            ;
        }
    } else {
        let p = pow2((eb - 1) as nat);
        lemma_pow2_pos((eb - 1) as nat);
        assert(n * p <= (n + fb) * p) by (nonlinear_arith);
        if ea == 0 {
            assert(fa < n * p) by (nonlinear_arith)
                requires
                    fa < n,
                    p >= 1,
            ;
        } else {
            let q = pow2((ea - 1) as nat);
            lemma_pow2_pos((ea - 1) as nat);
            lemma_pow2_unfold(ea);
            assert(pow2(ea) == 2 * q);
            if ea < eb - 1 {
                lemma_pow2_strictly_increases(ea, (eb - 1) as nat);
            }
            assert((n + fa) * q < n * (2 * q)) by (nonlinear_arith)
                requires
                    fa < n,
                    q > 0,
            ;
            assert(n * (2 * q) <= n * p) by (nonlinear_arith)
                requires
                    2 * q <= p,
            ;
        }
    }
}

/// The signed order keys of two quantities compare like their values.
proof fn lemma_order_key(a: Binary64, b: Binary64)
    ensures
        a.spec_order_key() <= b.spec_order_key() <==> a.value() <= b.value(),
{
    let (ua, ub) = (a.unsigned_bits(), b.unsigned_bits());
    lemma_zero_magnitude(ua);
    lemma_zero_magnitude(ub);
    if ua < ub {
        lemma_magnitude_increases(ua, ub);
    }
    if ub < ua {
        lemma_magnitude_increases(ub, ua);
    }
}

proof fn lemma_zero_magnitude(a: nat)
    ensures
        magnitude(a / FRACTIONS as nat, a % FRACTIONS as nat) == 0 <==> a == 0,
{
    if a > 0 {
        lemma_magnitude_increases(0, a);
    }
}

/// Of two quantities that are numbers, one is at most the other; and `below`
/// is the strict part of `at_most`.
pub proof fn lemma_total_order(a: Binary64, b: Binary64)
    requires
        !a.spec_is_nan(),
        !b.spec_is_nan(),
    ensures
        a.spec_at_most(b) || b.spec_at_most(a),
        a.spec_below(b) <==> !b.spec_at_most(a),
{
}

/// `at_most` is transitive.
pub proof fn lemma_transitive(a: Binary64, b: Binary64, c: Binary64)
    requires
        a.spec_at_most(b),
        b.spec_at_most(c),
    ensures
        a.spec_at_most(c),
{
}

/// Where the normal encoding with `exponent` and `fraction` stands for the
/// integer `n`: its significand is `n` shifted by the missing powers of two.
pub proof fn lemma_is_int(r: Binary64, n: nat, shift: nat)
    requires
        !r.spec_is_nan(),
        shift <= 1074,
        r.unsigned_bits() / FRACTIONS as nat == 1075 - shift,
        FRACTIONS + r.unsigned_bits() % FRACTIONS as nat == n * pow2(shift),
    ensures
        r.is_int(if r.is_negative() { -(n as int) } else { n as int }),
{
    let p = pow2(shift);
    let q = pow2((1074 - shift) as nat);
    lemma_pow2_adds(shift, (1074 - shift) as nat);
    assert((n * p) * q == n * (p * q)) by (nonlinear_arith);
    assert(-(n * (p * q)) == (-(n as int)) * (p * q)) by (nonlinear_arith);
}

/// Quantities that are whole numbers compare like these.
pub proof fn lemma_whole_numbers_compare(
    a: Binary64,
    b: Binary64,
    m: int,
    n: int,
    at_most: bool,
    below: bool,
)
    requires
        a.is_int(m),
        b.is_int(n),
        call_ensures(Binary64::at_most, (a, b), at_most),
        call_ensures(Binary64::below, (a, b), below),
    ensures
        at_most <==> m <= n,
        below <==> m < n,
{
    let p = pow2(1074);
    lemma_pow2_pos(1074);
    if m <= n {
        assert(m * p <= n * p) by (nonlinear_arith)
            requires
                m <= n,
                p > 0,
        ;
    } else {
        assert(m * p > n * p) by (nonlinear_arith)
            requires
                m > n,
                p > 0,
        ;
    }
    if m < n {
        assert(m * p < n * p) by (nonlinear_arith)
            requires
                m < n,
                p > 0,
        ;
    }
}

/// All quantities compare like their encodings, read as a sign and a magnitude;
/// both zeros are equal, and what is not a number compares with nothing.
pub proof fn lemma_encodings_compare(
    a: Binary64,
    b: Binary64,
    low: Binary64,
    nan: bool,
    at_most: bool,
    below: bool,
    within: bool,
)
    requires
        call_ensures(Binary64::is_nan, (a,), nan),
        call_ensures(Binary64::at_most, (a, b), at_most),
        call_ensures(Binary64::below, (a, b), below),
        call_ensures(Binary64::within, (a, low, b), within),
    ensures
        nan <==> 0x7ff0_0000_0000_0000 < a.bits < 0x8000_0000_0000_0000 || a.bits
            > 0xfff0_0000_0000_0000,
        at_most <==> !is_not_a_number(a) && !is_not_a_number(b) && signed(a) <= signed(b),
        below <==> !is_not_a_number(a) && !is_not_a_number(b) && signed(a) < signed(b),
        within <==> !is_not_a_number(a) && !is_not_a_number(b) && !is_not_a_number(low) && signed(
            low,
        ) <= signed(a) <= signed(b),
{
    lemma_order_key(a, b);
    lemma_order_key(b, a);
    lemma_order_key(low, a);
}

/// Are all bits of the exponent set, and some of the fraction?
pub open spec fn is_not_a_number(a: Binary64) -> bool {
    0x7ff0_0000_0000_0000 < a.bits < 0x8000_0000_0000_0000 || a.bits > 0xfff0_0000_0000_0000
}

/// The magnitude of an encoding, with its sign.
pub open spec fn signed(a: Binary64) -> int {
    if a.bits < 0x8000_0000_0000_0000 {
        a.bits as int
    } else {
        0x8000_0000_0000_0000 - a.bits
    }
}

/// The next encoding of a magnitude is worth one unit in the last place more: the
/// unit is 1 up to the second exponent, and doubles with each further one.
pub proof fn lemma_units_in_the_last_place(a: Binary64, b: Binary64, exponent: nat)
    requires
        a.bits < 0x7ff0_0000_0000_0000,
        b.bits == a.bits + 1,
        exponent == a.bits / 0x0010_0000_0000_0000,
    ensures
        exponent == 0 ==> b.value() - a.value() == 1,
        exponent > 0 ==> b.value() - a.value() == pow2((exponent - 1) as nat),
        (Binary64 { bits: 0 }).value() == 0,
{
    lemma2_to64();
    let f = a.bits as nat % FRACTIONS as nat;
    if f + 1 < FRACTIONS {
        assert(b.unsigned_bits() / FRACTIONS as nat == exponent);
        assert(b.unsigned_bits() % FRACTIONS as nat == f + 1);
        if exponent > 0 {
            let p = pow2((exponent - 1) as nat);
            assert((FRACTIONS + f + 1) * p - (FRACTIONS + f) * p == p) by (nonlinear_arith);
        }
    } else {
        assert(b.unsigned_bits() / FRACTIONS as nat == exponent + 1);
        assert(b.unsigned_bits() % FRACTIONS as nat == 0);
        if exponent > 0 {
            let p = pow2((exponent - 1) as nat);
            lemma_pow2_unfold(exponent);
            assert(FRACTIONS * (2 * p) - (2 * FRACTIONS - 1) * p == p) by (nonlinear_arith);
        } else {
            assert(pow2(0) == 1);
            assert(b.value() == FRACTIONS * pow2(0));
        }
    }
}

/// The quantity for a number of thousandths is as near to it as can be: no other
/// encoding with the same exponent is nearer.
pub proof fn lemma_thousandths_are_nearest(n: i32, r: Binary64, exponent: nat)
    requires
        call_ensures(Binary64::from_thousandths, (n,), r),
        exponent == r.unsigned_bits() / FRACTIONS as nat,
    ensures
        n == 0 ==> r.bits == 0,
        n < 0 <==> r.bits >= 0x8000_0000_0000_0000,
        n != 0 ==> exponent >= 1 && exponent <= 0x7ff && -1000 * pow2((exponent - 1) as nat) <= 2
            * (1000 * r.value() - n * pow2(1074)) <= 1000 * pow2((exponent - 1) as nat),
{
}

} // verus!
