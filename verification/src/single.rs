//! IEEE 754 single-precision numbers, held by their bit patterns.
//!
//! Scales, jitter offsets, exposures and matrices travel through this crate
//! unchanged, and a few decisions compare them. Both work on bit patterns: no
//! arithmetic on the numbers is done here.
use vstd::arithmetic::power2::{
    lemma_pow2_pos, lemma_pow2_strictly_increases, lemma_pow2_unfold, pow2,
};
use vstd::prelude::*;

verus! {

/// A single-precision number, by the bit pattern that `f32::to_bits` gives.
#[derive(Clone, Copy, Debug, PartialEq, Eq, Hash, Structural)]
pub struct Single(pub u32);

/// The size of the number whose bit pattern without its sign is `m`, counted in
/// units of the smallest positive single (two to the power of -149). Infinity
/// counts as the number one step beyond the largest finite one.
pub open spec fn scaled_magnitude(m: int) -> int {
    let exponent = m / 0x80_0000;
    let fraction = m % 0x80_0000;
    if exponent == 0 {
        fraction
    } else {
        (0x80_0000 + fraction) * pow2((exponent - 1) as nat)
    }
}

impl Single {
    /// The bit pattern without its sign bit.
    pub open spec fn magnitude(self) -> int {
        if self.0 < 0x8000_0000 {
            self.0 as int
        } else {
            self.0 - 0x8000_0000
        }
    }

    /// Whether the bit pattern stands for no number.
    pub open spec fn is_nan(self) -> bool {
        self.magnitude() > 0x7f80_0000
    }

    /// The number itself, in units of the smallest positive single.
    pub open spec fn scaled(self) -> int {
        if self.0 < 0x8000_0000 {
            scaled_magnitude(self.magnitude())
        } else {
            -scaled_magnitude(self.magnitude())
        }
    }

    /// `self < other` as numbers; false where either is not a number.
    pub open spec fn below(self, other: Single) -> bool {
        !self.is_nan() && !other.is_nan() && self.scaled() < other.scaled()
    }

    /// `self <= other` as numbers; false where either is not a number.
    pub open spec fn at_most(self, other: Single) -> bool {
        !self.is_nan() && !other.is_nan() && self.scaled() <= other.scaled()
    }

    /// The position of the bit pattern on the number line: as the number, so its key.
    spec fn key(self) -> int {
        if self.0 < 0x8000_0000 {
            self.magnitude()
        } else {
            -self.magnitude()
        }
    }

    /// The bit pattern's position on the number line, negated patterns below zero.
    fn line_position(self) -> (k: i64)
        ensures
            k == self.key(),
    {
        if self.0 < 0x8000_0000 {
            self.0 as i64
        } else {
            -((self.0 - 0x8000_0000) as i64)
        }
    }

    /// Whether the bit pattern is a number.
    fn is_number(self) -> (b: bool)
        ensures
            b == !self.is_nan(),
    {
        if self.0 < 0x8000_0000 {
            self.0 <= 0x7f80_0000
        } else {
            self.0 - 0x8000_0000 <= 0x7f80_0000
        }
    }

    /// `self < other` as numbers; false where either is not a number.
    pub fn lt(self, other: Single) -> (b: bool)
        ensures
            b == self.below(other),
    {
        proof {
            lemma_key_orders(self, other);
            lemma_key_orders(other, self);
        }
        self.is_number() && other.is_number() && self.line_position() < other.line_position()
    }

    /// `self <= other` as numbers; false where either is not a number.
    pub fn le(self, other: Single) -> (b: bool)
        ensures
            b == self.at_most(other),
    {
        proof {
            lemma_key_orders(self, other);
            lemma_key_orders(other, self);
        }
        self.is_number() && other.is_number() && self.line_position() <= other.line_position()
    }
}

/// The larger pattern is the larger size.
pub proof fn lemma_scaled_magnitude_increases(m: int, n: int)
    requires
        0 <= m < n,
    ensures
        0 <= scaled_magnitude(m) < scaled_magnitude(n),
{
    let (e, f) = (m / 0x80_0000, m % 0x80_0000);
    let (d, g) = (n / 0x80_0000, n % 0x80_0000);
    assert(e <= d);
    if e == d {
        if e > 0 {
            let p = pow2((e - 1) as nat) as int;
            lemma_pow2_pos((e - 1) as nat);
            assert(0 <= (0x80_0000 + f) * p < (0x80_0000 + g) * p) by (nonlinear_arith)
                requires
                    0 <= f < g,
                    0 < p,
            ;
        }
    } else {
        let q = pow2((d - 1) as nat) as int;
        lemma_pow2_pos((d - 1) as nat);
        assert(0x80_0000 * q <= (0x80_0000 + g) * q) by (nonlinear_arith)
            requires
                0 <= g,
                0 < q,
        ;
        if e == 0 {
            assert(0x80_0000 <= 0x80_0000 * q) by (nonlinear_arith)
                requires
                    0 < q,
            ;
        } else {
            let p = pow2((e - 1) as nat) as int;
            lemma_pow2_pos((e - 1) as nat);
            lemma_pow2_unfold(e as nat);
            if e < d - 1 {
                lemma_pow2_strictly_increases(e as nat, (d - 1) as nat);
            }
            assert(0 <= (0x80_0000 + f) * p < 0x80_0000 * q) by (nonlinear_arith)
                requires
                    0 <= f < 0x80_0000,
                    0 < p,
                    2 * p <= q,
            ;
        }
    }
}

/// Keys and numbers are ordered alike.
proof fn lemma_key_orders(a: Single, b: Single)
    ensures
        a.key() < b.key() ==> a.scaled() < b.scaled(),
        a.key() == b.key() ==> a.scaled() == b.scaled(),
{
    let (m, n) = (a.magnitude(), b.magnitude());
    if m < n {
        lemma_scaled_magnitude_increases(m, n);
    }
    if n < m {
        lemma_scaled_magnitude_increases(n, m);
    }
    assert(scaled_magnitude(0) == 0);
    if 0 < m {
        lemma_scaled_magnitude_increases(0, m);
    }
    if 0 < n {
        lemma_scaled_magnitude_increases(0, n);
    }
}

/// On numbers without a sign, the order of the bit patterns is the order of the
/// numbers.
pub proof fn law_positive_singles_are_ordered_by_their_bits(a: Single, b: Single)
    requires
        a.0 <= 0x7f80_0000,
        b.0 <= 0x7f80_0000,
    ensures
        a.below(b) <==> a.0 < b.0,
        a.at_most(b) <==> a.0 <= b.0,
{
    lemma_key_orders(a, b);
    lemma_key_orders(b, a);
}

/// Of two numbers, exactly one is below the other or each is at most the other; what
/// is not a number compares with nothing.
pub proof fn law_comparisons_are_total_on_numbers(a: Single, b: Single)
    ensures
        !a.is_nan() && !b.is_nan() ==> (a.below(b) <==> !b.at_most(a)),
        a.is_nan() || b.is_nan() ==> !a.below(b) && !a.at_most(b),
{
}

} // verus!
