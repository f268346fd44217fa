//! Single-precision arithmetic on bit patterns, rounded as [`crate::rounding`]
//! states it.
//!
//! The operations cover what the backends compute: numbers without a sign, zero or
//! of moderate size, so that no result leaves the normal range.
use vstd::arithmetic::power2::{lemma_pow2_adds, lemma_pow2_pos, lemma_pow2_unfold, pow2};
use vstd::prelude::*;

use crate::rounding::{
    lemma_exact, lemma_pattern_size, lemma_rounds_to_is_nearest, lemma_rounds_to_same_fraction,
    lemma_scaled_magnitude_ordered, nearest, one, round_fraction, rounds_to,
};
use crate::single::{scaled_magnitude, Single};

verus! {

/// The single nearest to an integer.
pub open spec fn from_integer(x: int) -> Single {
    nearest(x * one(), 1)
}

/// The single nearest to the quotient.
pub open spec fn quotient(a: Single, b: Single) -> Single {
    nearest(a.scaled() * one(), b.scaled())
}

/// The single nearest to the product.
pub open spec fn product(a: Single, b: Single) -> Single {
    nearest(a.scaled() * b.scaled(), one())
}

/// The single nearest to the sum.
pub open spec fn sum(a: Single, b: Single) -> Single {
    nearest(a.scaled() + b.scaled(), 1)
}

/// The single nearest to the difference.
pub open spec fn difference(a: Single, b: Single) -> Single {
    nearest(a.scaled() - b.scaled(), 1)
}

/// The number without its fraction, as far as 32 bits hold it.
pub open spec fn truncated(a: Single) -> int {
    if a.scaled() / one() > u32::MAX {
        u32::MAX as int
    } else {
        a.scaled() / one()
    }
}

impl Single {
    /// Zero, or a positive number between two to the power of -64 and two to the power
    /// of 60.
    pub open spec fn is_moderate(self) -> bool {
        self.0 == 0 || 0x1f80_0000 <= self.0 <= 0x5d80_0000
    }

    /// The significand of a positive normal number, and how many binades it lies above
    /// the smallest.
    fn parts(self) -> (r: (u128, u32))
        requires
            0x80_0000 <= self.0 < 0x7f80_0000,
        ensures
            0x80_0000 <= r.0 < 0x100_0000,
            r.1 == self.0 / 0x80_0000 - 1,
            self.0 == r.1 * 0x80_0000 + r.0,
            self.scaled() == r.0 * pow2(r.1 as nat),
    {
        (0x80_0000u128 + (self.0 % 0x80_0000) as u128, self.0 / 0x80_0000 - 1)
    }

    /// The single nearest to `x`.
    pub fn from_u32(x: u32) -> (r: Single)
        ensures
            r == from_integer(x as int),
            rounds_to(r.0 as int, x * one(), 1),
            x == 0 ==> r.0 == 0,
            x > 0 ==> 0x3f80_0000 <= r.0 <= 0x4f80_0000,
    {
        if x == 0 {
            proof {
                lemma_exact(0, 0, 1);
            }
            return Single(0);
        }
        proof {
            vstd::arithmetic::power2::lemma2_to64();
            lemma_pow2_adds(32, 149);
            vstd::arithmetic::power2::lemma_pow2_strictly_increases(181, 275);
            vstd::arithmetic::power2::lemma_pow2_strictly_increases(23, 149);
            let (y, w) = (x as int, pow2(149) as int);
            assert(w <= y * w < 0x1_0000_0000 * w) by (nonlinear_arith)
                requires
                    1 <= y < 0x1_0000_0000,
                    0 < w,
            ;
            lemma_power_pattern(127);
            lemma_power_pattern(159);
        }
        let p: u32 = round_fraction(x as u128, 1, 149);
        proof {
            lemma_rounds_to_is_nearest(p as int, x * one(), 1);
            crate::rounding::lemma_rounds_to_at_least(p as int, x * one(), 1, 0x3f80_0000);
            crate::rounding::lemma_rounds_to_at_most(p as int, x * one(), 1, 0x4f80_0000);
        }
        Single(p)
    }

    /// The single nearest to the quotient of `self` by `other`.
    pub fn divided_by(self, other: Single) -> (r: Single)
        requires
            self.is_moderate(),
            other.is_moderate(),
            other.0 != 0,
        ensures
            r == quotient(self, other),
            rounds_to(r.0 as int, self.scaled() * one(), other.scaled()),
            r.0 < 0x7f80_0000,
            self.0 == 0 ==> r.0 == 0,
    {
        if self.0 == 0 {
            proof {
                lemma_zero_and_one();
                lemma_scaled_magnitude_ordered(1, other.0 as int);
                assert(0 * one() == 0) by (nonlinear_arith);
                assert(scaled_magnitude(0) * other.scaled() == 0) by (nonlinear_arith)
                    requires
                        scaled_magnitude(0) == 0,
                ;
                lemma_exact(0, 0, other.scaled());
            }
            return Single(0);
        }
        let (m, g) = self.parts();
        let (n, h) = other.parts();
        let j: u32 = 149 + g - h;
        proof {
            vstd::arithmetic::power2::lemma2_to64();
            lemma_pow2_ordered(24, j as nat);
            lemma_pow2_ordered(j as nat, 273);
            lemma_pow2_adds(2, 273);
            let (w, top) = (pow2(j as nat) as int, pow2(273) as int);
            assert(0x80_0000 * n <= m * w) by (nonlinear_arith)
                requires
                    n < 0x100_0000,
                    0x80_0000 <= m,
                    0x100_0000 <= w,
            ;
            assert(m * w < n * (4 * top)) by (nonlinear_arith)
                requires
                    m < 0x100_0000,
                    0x80_0000 <= n,
                    0 < w <= top,
            ;
        }
        let p: u32 = round_fraction(m, n, j);
        proof {
            // m / n times 2^j is m * 2^g times 2^149, by n * 2^h.
            lemma_pow2_adds(j as nat, h as nat);
            lemma_pow2_adds(149, g as nat);
            assert((j + h) as nat == (149 + g) as nat);
            lemma_pow2_pos(g as nat);
            lemma_pow2_pos(h as nat);
            lemma_pow2_pos(149);
            let (w, a, b, c) = (
                pow2(j as nat) as int,
                pow2(g as nat) as int,
                pow2(h as nat) as int,
                one(),
            );
            let (x, y) = (m as int, n as int);
            assert(w * b == c * a);
            assert((x * w) * (y * b) == (x * a * c) * y) by (nonlinear_arith)
                requires
                    w * b == c * a,
            ;
            assert(y * b > 0) by (nonlinear_arith)
                requires
                    y > 0,
                    b > 0,
            ;
            lemma_rounds_to_same_fraction(
                p as int,
                x * w,
                y,
                self.scaled() * one(),
                other.scaled(),
            );
            lemma_rounds_to_is_nearest(p as int, self.scaled() * one(), other.scaled());
            assert(self.scaled() * one() >= 0) by (nonlinear_arith)
                requires
                    self.scaled() == x * a,
                    x > 0,
                    a > 0,
                    one() > 0,
            ;
        }
        Single(p)
    }

    /// The single nearest to the product of `self` and `other`.
    pub fn times(self, other: Single) -> (r: Single)
        requires
            self.is_moderate(),
            other.is_moderate(),
            self.0 != 0 && other.0 != 0 ==> self.0 + other.0 >= 0x4c00_0000,
        ensures
            r == product(self, other),
            rounds_to(r.0 as int, self.scaled() * other.scaled(), one()),
            r.0 < 0x7f80_0000,
            self.0 == 0 || other.0 == 0 ==> r.0 == 0,
    {
        proof {
            lemma_zero_and_one();
        }
        if self.0 == 0 || other.0 == 0 {
            proof {
                assert(self.scaled() * other.scaled() == 0) by (nonlinear_arith)
                    requires
                        self.scaled() == 0 || other.scaled() == 0,
                ;
                assert(scaled_magnitude(0) * one() == 0) by (nonlinear_arith)
                    requires
                        scaled_magnitude(0) == 0,
                ;
                lemma_exact(0, 0, one());
            }
            return Single(0);
        }
        let (m, g) = self.parts();
        let (n, h) = other.parts();
        let j: u32 = g + h - 149;
        proof {
            vstd::arithmetic::power2::lemma2_to64();
            vstd::arithmetic::power2::lemma2_to64_rest();
            lemma_pow2_adds(48, j as nat);
            lemma_pow2_ordered((48 + j) as nat, 274);
            lemma_pow2_unfold(275);
            let w = pow2(j as nat) as int;
            lemma_pow2_pos(j as nat);
            assert(0x80_0000 <= m * n < 0x1_0000_0000_0000) by (nonlinear_arith)
                requires
                    0x80_0000 <= m < 0x100_0000,
                    0x80_0000 <= n < 0x100_0000,
            ;
            let x = m * n;
            assert(0x80_0000 * 1 <= x * w < 0x1_0000_0000_0000 * w) by (nonlinear_arith)
                requires
                    0x80_0000 <= x < 0x1_0000_0000_0000,
                    1 <= w,
            ;
        }
        let p: u32 = round_fraction(m * n, 1, j);
        proof {
            lemma_pow2_adds(j as nat, 149);
            lemma_pow2_adds(g as nat, h as nat);
            assert((j + 149) as nat == (g + h) as nat);
            let (w, a, b, c) = (
                pow2(j as nat) as int,
                pow2(g as nat) as int,
                pow2(h as nat) as int,
                one(),
            );
            let (x, y) = (m as int, n as int);
            assert(w * c == a * b);
            assert((x * y * w) * c == ((x * a) * (y * b)) * 1) by (nonlinear_arith)
                requires
                    w * c == a * b,
            ;
            lemma_rounds_to_same_fraction(
                p as int,
                x * y * w,
                1,
                self.scaled() * other.scaled(),
                one(),
            );
            lemma_rounds_to_is_nearest(p as int, self.scaled() * other.scaled(), one());
            lemma_scaled_magnitude_ordered(0, self.0 as int);
            lemma_scaled_magnitude_ordered(0, other.0 as int);
            assert(self.scaled() * other.scaled() >= 0) by (nonlinear_arith)
                requires
                    self.scaled() >= 0,
                    other.scaled() >= 0,
            ;
        }
        Single(p)
    }

    /// Whether two positive numbers are few enough binades apart to be added.
    pub open spec fn is_near(self, other: Single) -> bool {
        &&& self.0 <= other.0 + 0x2400_0000
        &&& other.0 <= self.0 + 0x2400_0000
    }

    /// The single nearest to the sum of `self` and `other`.
    pub fn plus(self, other: Single) -> (r: Single)
        requires
            self.is_moderate(),
            other.is_moderate(),
            self.0 != 0 && other.0 != 0 ==> self.is_near(other),
        ensures
            r == sum(self, other),
            rounds_to(r.0 as int, self.scaled() + other.scaled(), 1),
            r.0 < 0x7f80_0000,
    {
        proof {
            lemma_zero_and_one();
            lemma_scaled_magnitude_ordered(0, self.0 as int);
            lemma_scaled_magnitude_ordered(0, other.0 as int);
        }
        if other.0 == 0 {
            proof {
                lemma_exact(self.0 as int, self.scaled(), 1);
            }
            return self;
        }
        if self.0 == 0 {
            proof {
                lemma_exact(other.0 as int, other.scaled(), 1);
            }
            return other;
        }
        let (m, g) = self.parts();
        let (n, h) = other.parts();
        let (x, y, j) = aligned(m, g, n, h);
        proof {
            let w = pow2(j as nat) as int;
            assert((x + y) * w == x * w + y * w) by (nonlinear_arith);
            lemma_power_pattern(187);
            lemma_scaled_magnitude_ordered(self.0 as int, 0x5d80_0000);
            lemma_scaled_magnitude_ordered(other.0 as int, 0x5d80_0000);
            assert(x + y > 0) by {
                lemma_pow2_pos(g as nat);
                assert(m * pow2(g as nat) > 0) by (nonlinear_arith)
                    requires
                        m > 0,
                        pow2(g as nat) > 0,
                ;
                assert(x > 0) by (nonlinear_arith)
                    requires
                        x * w > 0,
                        w >= 0,
                ;
            }
            lemma_sum_in_range((x + y) as int, j as nat);
        }
        let p: u32 = round_fraction(x + y, 1, j);
        proof {
            lemma_rounds_to_is_nearest(p as int, self.scaled() + other.scaled(), 1);
        }
        Single(p)
    }

    /// The single nearest to `self` less `other`.
    pub fn minus(self, other: Single) -> (r: Single)
        requires
            self.is_moderate(),
            other.is_moderate(),
            self.0 != 0 && other.0 != 0 ==> self.is_near(other),
        ensures
            r == difference(self, other),
            r.magnitude() < 0x7f80_0000,
            self.scaled() >= other.scaled() ==> r.0 < 0x7f80_0000 && rounds_to(
                r.0 as int,
                self.scaled() - other.scaled(),
                1,
            ),
            self.scaled() < other.scaled() ==> r.0 >= 0x8000_0000 && rounds_to(
                r.0 - 0x8000_0000,
                other.scaled() - self.scaled(),
                1,
            ),
    {
        proof {
            lemma_zero_and_one();
            lemma_scaled_magnitude_ordered(0, self.0 as int);
            lemma_scaled_magnitude_ordered(0, other.0 as int);
        }
        if other.0 == 0 {
            proof {
                lemma_exact(self.0 as int, self.scaled(), 1);
            }
            return self;
        }
        if self.0 == 0 {
            proof {
                lemma_exact(other.0 as int, other.scaled(), 1);
            }
            return Single(0x8000_0000 + other.0);
        }
        let (m, g) = self.parts();
        let (n, h) = other.parts();
        let (x, y, j) = aligned(m, g, n, h);
        let ghost w = pow2(j as nat) as int;
        proof {
            lemma_pow2_pos(j as nat);
            lemma_power_pattern(187);
            lemma_scaled_magnitude_ordered(self.0 as int, 0x5d80_0000);
            lemma_scaled_magnitude_ordered(other.0 as int, 0x5d80_0000);
            assert((x > y <==> x * w > y * w) && (x == y <==> x * w == y * w)) by (nonlinear_arith)
                requires
                    w > 0,
            ;
        }
        if x == y {
            proof {
                lemma_exact(0, 0, 1);
            }
            return Single(0);
        }
        if x > y {
            proof {
                assert((x - y) * w == x * w - y * w) by (nonlinear_arith);
                lemma_sum_in_range((x - y) as int, j as nat);
            }
            let p: u32 = round_fraction(x - y, 1, j);
            proof {
                lemma_rounds_to_is_nearest(p as int, self.scaled() - other.scaled(), 1);
            }
            Single(p)
        } else {
            proof {
                assert((y - x) * w == y * w - x * w) by (nonlinear_arith);
                lemma_sum_in_range((y - x) as int, j as nat);
            }
            let p: u32 = round_fraction(y - x, 1, j);
            proof {
                lemma_rounds_to_is_nearest(p as int, other.scaled() - self.scaled(), 1);
            }
            Single(0x8000_0000 + p)
        }
    }

    /// The number without its fraction; the largest integer where it has more than 32
    /// bits.
    pub fn to_u32(self) -> (r: u32)
        requires
            self.0 < 0x7f80_0000,
        ensures
            r == truncated(self),
    {
        proof {
            lemma_power_pattern(127);
            lemma_power_pattern(159);
            lemma_pow2_pos(149);
            vstd::arithmetic::power2::lemma2_to64();
            lemma_pow2_adds(32, 149);
        }
        if self.0 < 0x3f80_0000 {
            proof {
                lemma_scaled_magnitude_ordered(self.0 as int, 0x3f80_0000);
                vstd::arithmetic::div_mod::lemma_basic_div(self.scaled(), one());
            }
            return 0;
        }
        if self.0 >= 0x4f80_0000 {
            proof {
                lemma_scaled_magnitude_ordered(0x4f80_0000, self.0 as int);
                vstd::arithmetic::div_mod::lemma_div_is_ordered(
                    0x1_0000_0000 * one(),
                    self.scaled(),
                    one(),
                );
                vstd::arithmetic::div_mod::lemma_div_multiples_vanish(0x1_0000_0000, one());
                assert(one() * 0x1_0000_0000 == 0x1_0000_0000 * one()) by (nonlinear_arith);
            }
            return u32::MAX;
        }
        let (m, g) = self.parts();
        if g >= 149 {
            let r: u128 = times_power(m, g - 149);
            proof {
                lemma_pow2_adds((g - 149) as nat, 149);
                lemma_pow2_ordered((g - 149) as nat, 8);
                let (w, c) = (pow2((g - 149) as nat) as int, one());
                assert(m * (w * c) == (m * w) * c) by (nonlinear_arith);
                assert(m * w < 0x1_0000_0000) by (nonlinear_arith)
                    requires
                        m < 0x100_0000,
                        0 < w <= 0x100,
                ;
                vstd::arithmetic::div_mod::lemma_div_multiples_vanish(m * w, c);
                assert(c * (m * w) == (m * w) * c) by (nonlinear_arith);
            }
            r as u32
        } else {
            let d: u128 = times_power(1, 149 - g);
            let r: u128 = m / d;
            proof {
                lemma_pow2_adds((149 - g) as nat, g as nat);
                lemma_pow2_pos(g as nat);
                let (x, w, a) = (m as int, d as int, pow2(g as nat) as int);
                assert(one() == w * a);
                vstd::arithmetic::div_mod::lemma_fundamental_div_mod(x, w);
                vstd::arithmetic::div_mod::lemma_mod_bound(x, w);
                let (q, rest) = (x / w, x % w);
                assert(x * a == q * (w * a) + rest * a) by (nonlinear_arith)
                    requires
                        x == w * q + rest,
                ;
                assert(0 <= rest * a < w * a) by (nonlinear_arith)
                    requires
                        0 <= rest < w,
                        0 < a,
                ;
                vstd::arithmetic::div_mod::lemma_fundamental_div_mod_converse(
                    x * a,
                    one(),
                    q,
                    rest * a,
                );
            }
            r as u32
        }
    }
}

/// Powers of two are ordered by their exponents.
pub proof fn lemma_pow2_ordered(a: nat, b: nat)
    requires
        a <= b,
    ensures
        0 < pow2(a) <= pow2(b),
{
    lemma_pow2_pos(a);
    if a < b {
        vstd::arithmetic::power2::lemma_pow2_strictly_increases(a, b);
    }
}

/// The patterns with an empty fraction are the powers of two.
pub proof fn lemma_power_pattern(e: int)
    requires
        1 <= e,
    ensures
        scaled_magnitude(e * 0x80_0000) == pow2((e + 22) as nat),
{
    lemma_pattern_size(e - 1, 0x80_0000);
    vstd::arithmetic::power2::lemma2_to64();
    lemma_pow2_adds(23, (e - 1) as nat);
}

/// Zero units, and a positive number of them.
proof fn lemma_zero_and_one()
    ensures
        scaled_magnitude(0) == 0,
        scaled_magnitude(1) == 1,
        one() > 0,
{
    lemma_pow2_pos(149);
}

proof fn lemma_sum_in_range(n: int, j: nat)
    requires
        0 < n,
        62 <= j,
        n * pow2(j) <= 2 * pow2(209),
    ensures
        0x80_0000 * 1 <= n * pow2(j),
        n * pow2(j) < 1 * pow2(275),
{
    vstd::arithmetic::power2::lemma2_to64();
    vstd::arithmetic::power2::lemma2_to64_rest();
    lemma_pow2_ordered(62, j);
    lemma_pow2_unfold(210);
    vstd::arithmetic::power2::lemma_pow2_strictly_increases(210, 275);
    let w = pow2(j) as int;
    assert(w <= n * w) by (nonlinear_arith)
        requires
            0 < n,
            0 < w,
    ;
}

/// `m` times two to the power of `k`.
fn times_power(m: u128, k: u32) -> (r: u128)
    requires
        m < 0x100_0000,
        k <= 74,
    ensures
        r == m * pow2(k as nat),
        r < 0x4_0000_0000_0000_0000_0000_0000,
{
    let mut r: u128 = m;
    let mut i: u32 = 0;
    proof {
        vstd::arithmetic::power2::lemma2_to64();
        vstd::arithmetic::power2::lemma2_to64_rest();
        lemma_pow2_adds(37, 37);
        assert(0x20_0000_0000int * 0x20_0000_0000int == 0x400_0000_0000_0000_0000)
            by (nonlinear_arith);
    }
    while i < k
        invariant
            i <= k <= 74,
            m < 0x100_0000,
            r == m * pow2(i as nat),
            pow2(74) == 0x400_0000_0000_0000_0000,
        decreases k - i,
    {
        proof {
            lemma_pow2_unfold((i + 1) as nat);
            lemma_pow2_ordered((i + 1) as nat, 74);
            let w = pow2(i as nat) as int;
            assert(m * (2 * w) == 2 * (m * w) && 2 * (m * w) <= 0x100_0000 * (2 * w))
                by (nonlinear_arith)
                requires
                    m < 0x100_0000,
                    0 <= w,
            ;
        }
        r = r * 2;
        i = i + 1;
    }
    proof {
        lemma_pow2_ordered(k as nat, 74);
        let w = pow2(k as nat) as int;
        assert(m * w < 0x100_0000 * 0x400_0000_0000_0000_0000) by (nonlinear_arith)
            requires
                m < 0x100_0000,
                0 < w <= 0x400_0000_0000_0000_0000,
        ;
    }
    r
}

/// Two significands brought to the same binade.
fn aligned(m: u128, g: u32, n: u128, h: u32) -> (r: (u128, u128, u32))
    requires
        0x80_0000 <= m < 0x100_0000,
        0x80_0000 <= n < 0x100_0000,
        62 <= g <= 186,
        62 <= h <= 186,
        g <= h + 74,
        h <= g + 74,
    ensures
        r.0 * pow2(r.2 as nat) == m * pow2(g as nat),
        r.1 * pow2(r.2 as nat) == n * pow2(h as nat),
        r.0 < 0x4_0000_0000_0000_0000_0000_0000,
        r.1 < 0x4_0000_0000_0000_0000_0000_0000,
        r.2 == g || r.2 == h,
        r.2 <= g,
        r.2 <= h,
{
    if g >= h {
        let x: u128 = times_power(m, g - h);
        proof {
            lemma_pow2_adds((g - h) as nat, h as nat);
            let (a, b) = (pow2((g - h) as nat) as int, pow2(h as nat) as int);
            assert((m * a) * b == m * (a * b)) by (nonlinear_arith);
        }
        (x, n, h)
    } else {
        let y: u128 = times_power(n, h - g);
        proof {
            lemma_pow2_adds((h - g) as nat, g as nat);
            let (a, b) = (pow2((h - g) as nat) as int, pow2(g as nat) as int);
            assert((n * a) * b == n * (a * b)) by (nonlinear_arith);
        }
        (m, y, g)
    }
}

} // verus!
