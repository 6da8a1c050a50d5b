//! Real numbers as the engine carries them: IEEE 754 double-precision values,
//! held by their 64-bit pattern. The library never does arithmetic on them; it
//! moves them, compares them and tests them for finiteness, all of which can be
//! said of the bit pattern alone.

use vstd::arithmetic::power2::{
    lemma2_to64, lemma2_to64_rest, lemma_pow2_pos, lemma_pow2_strictly_increases,
    lemma_pow2_unfold, pow2,
};
use vstd::prelude::*;

verus! {

/// The smallest bit pattern whose sign bit is set.
pub const SIGN_BIT: u64 = 0x8000_0000_0000_0000;

/// The magnitude of the two infinities. Larger magnitudes are not numbers.
pub const INFINITY_BITS: u64 = 0x7FF0_0000_0000_0000;

/// Bit pattern of zero.
pub const ZERO_BITS: u64 = 0;

/// Bit pattern of one tenth, rounded to nearest.
pub const TENTH_BITS: u64 = 0x3FB9_9999_9999_999A;

/// Bit pattern of one.
pub const ONE_BITS: u64 = 0x3FF0_0000_0000_0000;

/// Bit pattern of two.
pub const TWO_BITS: u64 = 0x4000_0000_0000_0000;

/// Bit pattern of the largest finite value.
pub const MAX_BITS: u64 = 0x7FEF_FFFF_FFFF_FFFF;

/// A double-precision value, identified by its bit pattern.
///
/// `==` on two scalars compares patterns: it tells the two zeros apart and
/// finds a pattern that is no number equal to itself. To compare values, use
/// [`Scalar::is_same_as`] and [`Scalar::is_less_than`].
#[derive(Clone, Copy, Debug, PartialEq, Eq, Structural)]
pub struct Scalar {
    pub bits: u64,
}

/// The pattern with its sign bit cleared.
pub open spec fn magnitude(bits: u64) -> int {
    if bits >= SIGN_BIT {
        bits - SIGN_BIT
    } else {
        bits as int
    }
}

/// Whether the pattern encodes no number at all.
pub open spec fn is_nan(bits: u64) -> bool {
    magnitude(bits) > INFINITY_BITS
}

/// Whether the pattern encodes a number that is neither infinite nor absent.
pub open spec fn is_finite(bits: u64) -> bool {
    magnitude(bits) < INFINITY_BITS
}

/// An integer that orders the numbers as their values do: magnitudes grow
/// with the pattern, negative values mirror below zero, and the two zeros
/// share one key.
pub open spec fn order_key(bits: u64) -> int {
    if bits >= SIGN_BIT {
        -magnitude(bits)
    } else {
        magnitude(bits)
    }
}

/// IEEE `<`: false as soon as either side is not a number.
pub open spec fn less_than(a: u64, b: u64) -> bool {
    !is_nan(a) && !is_nan(b) && order_key(a) < order_key(b)
}

/// IEEE `==`: false as soon as either side is not a number; the two zeros
/// are equal.
pub open spec fn same_value(a: u64, b: u64) -> bool {
    !is_nan(a) && !is_nan(b) && order_key(a) == order_key(b)
}

impl Scalar {
    pub open spec fn is_nan(self) -> bool {
        is_nan(self.bits)
    }

    pub open spec fn finite(self) -> bool {
        is_finite(self.bits)
    }

    pub open spec fn key(self) -> int {
        order_key(self.bits)
    }

    pub open spec fn lt(self, other: Scalar) -> bool {
        less_than(self.bits, other.bits)
    }

    pub open spec fn same(self, other: Scalar) -> bool {
        same_value(self.bits, other.bits)
    }

    /// The value with the given bit pattern.
    pub fn from_bits(bits: u64) -> (r: Scalar)
        ensures
            r.bits == bits,
    {
        Scalar { bits }
    }

    /// The bit pattern of the value.
    pub fn to_bits(&self) -> (r: u64)
        ensures
            r == self.bits,
    {
        self.bits
    }

    /// Zero.
    pub fn zero() -> (r: Scalar)
        ensures
            r.bits == ZERO_BITS,
    {
        Scalar { bits: ZERO_BITS }
    }

    fn magnitude_of(&self) -> (r: u64)
        ensures
            r == magnitude(self.bits),
    {
        if self.bits >= SIGN_BIT {
            self.bits - SIGN_BIT
        } else {
            self.bits
        }
    }

    /// Whether the value is neither infinite nor absent.
    pub fn is_finite(&self) -> (r: bool)
        ensures
            r == self.finite(),
    {
        self.magnitude_of() < INFINITY_BITS
    }

    /// Whether the pattern encodes no number.
    pub fn is_not_a_number(&self) -> (r: bool)
        ensures
            r == self.is_nan(),
    {
        self.magnitude_of() > INFINITY_BITS
    }

    /// IEEE `<` on the two values.
    pub fn is_less_than(&self, other: &Scalar) -> (r: bool)
        ensures
            r == self.lt(*other),
    {
        let a: u64 = self.magnitude_of();
        let b: u64 = other.magnitude_of();
        if a > INFINITY_BITS || b > INFINITY_BITS {
            return false;
        }
        let a_negative: bool = self.bits >= SIGN_BIT;
        let b_negative: bool = other.bits >= SIGN_BIT;
        if a_negative {
            if b_negative {
                b < a
            } else {
                a > 0 || b > 0
            }
        } else {
            if b_negative {
                false
            } else {
                a < b
            }
        }
    }

    /// IEEE `==` on the two values.
    pub fn is_same_as(&self, other: &Scalar) -> (r: bool)
        ensures
            r == self.same(*other),
    {
        let a: u64 = self.magnitude_of();
        let b: u64 = other.magnitude_of();
        if a > INFINITY_BITS || b > INFINITY_BITS {
            return false;
        }
        if a == 0 && b == 0 {
            return true;
        }
        self.bits == other.bits
    }
}

/// `<` never holds of a value and itself.
pub proof fn lemma_less_than_irreflexive(a: Scalar)
    ensures
        !a.lt(a),
{
}

/// `<` is transitive.
pub proof fn lemma_less_than_transitive(a: Scalar, b: Scalar, c: Scalar)
    requires
        a.lt(b),
        b.lt(c),
    ensures
        a.lt(c),
{
}

/// Of two numbers exactly one of `<`, `==` and `>` holds.
pub proof fn lemma_trichotomy(a: Scalar, b: Scalar)
    requires
        !a.is_nan(),
        !b.is_nan(),
    ensures
        a.lt(b) || a.same(b) || b.lt(a),
        !(a.lt(b) && a.same(b)),
        !(a.lt(b) && b.lt(a)),
        !(a.same(b) && b.lt(a)),
{
}

/// Number of patterns that share one exponent: two to the power 52.
pub const FRACTION_SIZE: u64 = 0x10_0000_0000_0000;

/// Exponent field of the values from one up to, but not including, two.
pub const EXPONENT_BIAS: u64 = 1023;

/// Whether exponent `e` and fraction `f` make up the whole number `n`:
/// `(1 + f / 2^52) * 2^e == n`, said without division.
pub open spec fn spells_whole(e: nat, f: nat, n: nat) -> bool {
    f < FRACTION_SIZE && (FRACTION_SIZE + f) * pow2(e) == n * FRACTION_SIZE
}

/// The pattern of the positive normal number with exponent `e` and fraction
/// `f`.
pub open spec fn normal_bits(e: nat, f: nat) -> int {
    (EXPONENT_BIAS + e) * FRACTION_SIZE + f
}

/// Whether the pattern is that of the whole number `n`.
pub open spec fn is_whole(bits: u64, n: nat) -> bool {
    if n == 0 {
        bits == ZERO_BITS
    } else {
        exists|e: nat, f: nat| #[trigger] spells_whole(e, f, n) && bits == normal_bits(e, f)
    }
}

impl Scalar {
    /// The value of a whole number. Every 32-bit number has one, exactly.
    pub fn from_u32(n: u32) -> (r: Scalar)
        ensures
            is_whole(r.bits, n as nat),
            r.finite(),
            r.bits < SIGN_BIT,
    {
        if n == 0 {
            return Scalar { bits: ZERO_BITS };
        }
        let mut power: u64 = 1;
        let mut unit: u64 = FRACTION_SIZE;
        let mut e: u64 = 0;
        proof {
            lemma2_to64();
            lemma2_to64_rest();
        }
        while power * 2 <= n as u64
            invariant
                power == pow2(e as nat),
                unit == pow2((52 - e) as nat),
                power * unit == FRACTION_SIZE,
                1 <= power <= n,
                e <= 31,
            decreases n - power,
        {
            proof {
                lemma_pow2_unfold((e + 1) as nat);
                lemma_pow2_unfold((52 - e) as nat);
                assert((power * 2) * (unit / 2) == power * unit) by (nonlinear_arith)
                    requires
                        unit % 2 == 0,
                ;
                lemma2_to64();
            }
            power = power * 2;
            unit = unit / 2;
            e = e + 1;
        }
        let rest: u64 = n as u64 - power;
        assert(rest * unit < FRACTION_SIZE && (FRACTION_SIZE + rest * unit) * power == n
            * FRACTION_SIZE) by (nonlinear_arith)
            requires
                rest == n - power,
                0 <= rest < power,
                power * unit == FRACTION_SIZE,
                unit > 0,
        ;
        let fraction: u64 = rest * unit;
        let bits: u64 = (EXPONENT_BIAS + e) * FRACTION_SIZE + fraction;
        assert(spells_whole(e as nat, fraction as nat, n as nat));
        Scalar { bits }
    }
}

/// A whole number lies between the power of two of its exponent and the
/// next one.
pub proof fn lemma_whole_between_powers(e: nat, f: nat, n: nat)
    requires
        spells_whole(e, f, n),
    ensures
        pow2(e) <= n < 2 * pow2(e),
{
    lemma_pow2_pos(e);
    let p = pow2(e) as int;
    let unit = FRACTION_SIZE as int;
    assert(p <= n && n < 2 * p) by (nonlinear_arith)
        requires
            (unit + f) * p == n * unit,
            0 <= f < unit,
            p > 0,
            unit > 0,
    ;
}

/// Exponent and fraction of a whole number are determined by it.
pub proof fn lemma_whole_parts_unique(e1: nat, f1: nat, e2: nat, f2: nat, n: nat)
    requires
        spells_whole(e1, f1, n),
        spells_whole(e2, f2, n),
    ensures
        e1 == e2,
        f1 == f2,
{
    lemma_whole_between_powers(e1, f1, n);
    lemma_whole_between_powers(e2, f2, n);
    if e1 < e2 {
        lemma_pow2_unfold((e1 + 1) as nat);
        if e1 + 1 < e2 {
            lemma_pow2_strictly_increases((e1 + 1) as nat, e2);
        }
    }
    if e2 < e1 {
        lemma_pow2_unfold((e2 + 1) as nat);
        if e2 + 1 < e1 {
            lemma_pow2_strictly_increases((e2 + 1) as nat, e1);
        }
    }
    lemma_pow2_pos(e1);
    let p = pow2(e1) as int;
    let unit = FRACTION_SIZE as int;
    assert(f1 == f2) by (nonlinear_arith)
        requires
            (unit + f1) * p == n * unit,
            (unit + f2) * p == n * unit,
            p > 0,
    ;
}

/// A whole number has one pattern only.
pub proof fn lemma_whole_is_unique(a: u64, b: u64, n: nat)
    requires
        is_whole(a, n),
        is_whole(b, n),
    ensures
        a == b,
{
    if n > 0 {
        let (e1, f1) = choose|e: nat, f: nat| #[trigger]
            spells_whole(e, f, n) && a == normal_bits(e, f);
        let (e2, f2) = choose|e: nat, f: nat| #[trigger]
            spells_whole(e, f, n) && b == normal_bits(e, f);
        lemma_whole_parts_unique(e1, f1, e2, f2, n);
    }
}

/// The patterns of whole numbers are ordered as the numbers are.
pub proof fn lemma_whole_order(a: u64, n: u32, b: u64, m: u32)
    requires
        is_whole(a, n as nat),
        is_whole(b, m as nat),
        n < m,
    ensures
        less_than(a, b),
{
    lemma2_to64();
    lemma2_to64_rest();
    let (e2, f2) = choose|e: nat, f: nat| #[trigger]
        spells_whole(e, f, m as nat) && b == normal_bits(e, f);
    lemma_whole_between_powers(e2, f2, m as nat);
    if e2 >= 32 {
        if e2 > 32 {
            lemma_pow2_strictly_increases(32, e2);
        }
    }
    if n > 0 {
        let (e1, f1) = choose|e: nat, f: nat| #[trigger]
            spells_whole(e, f, n as nat) && a == normal_bits(e, f);
        lemma_whole_between_powers(e1, f1, n as nat);
        if e1 > e2 {
            lemma_pow2_unfold((e2 + 1) as nat);
            if e2 + 1 < e1 {
                lemma_pow2_strictly_increases((e2 + 1) as nat, e1);
            }
        }
        if e1 == e2 {
            lemma_pow2_pos(e1);
            let p = pow2(e1) as int;
            let unit = FRACTION_SIZE as int;
            assert(f1 < f2) by (nonlinear_arith)
                requires
                    (unit + f1) * p == n * unit,
                    (unit + f2) * p == m * unit,
                    n < m,
                    p > 0,
                    unit > 0,
            ;
        } else {
            assert(normal_bits(e1, f1) < normal_bits(e2, f2)) by (nonlinear_arith)
                requires
                    e1 < e2,
                    f1 < FRACTION_SIZE,
                    0 <= f2,
            ;
        }
    }
    assert(b < INFINITY_BITS) by (nonlinear_arith)
        requires
            b == (EXPONENT_BIAS + e2) * FRACTION_SIZE + f2,
            e2 < 32,
            f2 < FRACTION_SIZE,
    ;
}

} // verus!
