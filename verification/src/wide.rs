//! Unsigned 256-bit integers, wide enough for the product of any two `u128` amounts.

use vstd::prelude::*;

verus! {

/// Two to the power 64: the radix in which `u128` factors are split for multiplication.
pub const HALF_RADIX: u128 = 0x1_0000_0000_0000_0000;

/// Two to the power 128: the weight of the high word of a [`Wide`].
pub open spec fn radix() -> nat {
    0x1_0000_0000_0000_0000_0000_0000_0000_0000nat
}

/// An unsigned 256-bit integer held as two 128-bit words.
#[derive(Clone, Copy, Debug, PartialEq, Eq)]
pub struct Wide {
    pub hi: u128,
    pub lo: u128,
}

impl View for Wide {
    type V = nat;

    /// The number that the two words denote.
    open spec fn view(&self) -> nat {
        self.hi as nat * radix() + self.lo as nat
    }
}

impl Wide {
    /// The `Wide` that denotes `n`, for `n` below two to the power 256.
    pub open spec fn of(n: nat) -> Wide {
        Wide { hi: (n / radix()) as u128, lo: (n % radix()) as u128 }
    }

    /// A number has one representation only: the words are its quotient and remainder by
    /// two to the power 128.
    pub proof fn lemma_words_are_unique(self)
        ensures
            Wide::of(self@) == self,
            self@ < radix() * radix(),
    {
        let r = radix();
        let n = self@;
        assert(n == self.hi as nat * r + self.lo as nat);
        assert(self.lo < r);
        assert(self.hi < r);
        assert(n / r == self.hi as nat && n % r == self.lo as nat) by {
            vstd::arithmetic::div_mod::lemma_fundamental_div_mod_converse(
                n as int,
                r as int,
                self.hi as int,
                self.lo as int,
            );
        }
        assert(self.hi as nat * r <= (r - 1) * r) by (nonlinear_arith)
            requires
                self.hi < r,
        ;
    }

    /// `of` is the inverse of the view on every number that fits.
    pub proof fn lemma_of_denotes(n: nat)
        requires
            n < radix() * radix(),
        ensures
            Wide::of(n)@ == n,
    {
        let r = radix();
        assert(n / r < r) by (nonlinear_arith)
            requires
                n < r * r,
                r > 0,
        ;
        assert(n == (n / r) * r + n % r) by {
            vstd::arithmetic::div_mod::lemma_fundamental_div_mod(n as int, r as int);
            assert(r * (n / r) == (n / r) * r) by (nonlinear_arith);
        }
    }

    /// Widens a single word.
    pub fn from_u128(x: u128) -> (r: Wide)
        ensures
            r@ == x,
            r == Wide::of(x as nat),
    {
        Wide { hi: 0, lo: x }
    }

    /// The full product of two words; it never overflows.
    pub fn product(a: u128, b: u128) -> (r: Wide)
        ensures
            r@ == a as nat * b as nat,
            r == Wide::of(a as nat * b as nat),
    {
        let a1: u128 = a / HALF_RADIX;
        let a0: u128 = a % HALF_RADIX;
        let b1: u128 = b / HALF_RADIX;
        let b0: u128 = b % HALF_RADIX;
        proof {
            lemma_half_product_fits(a0, b0);
            lemma_half_product_fits(a0, b1);
            lemma_half_product_fits(a1, b0);
            lemma_half_product_fits(a1, b1);
        }
        let p00: u128 = a0 * b0;
        let p01: u128 = a0 * b1;
        let p10: u128 = a1 * b0;
        let p11: u128 = a1 * b1;
        let mid: u128 = p00 / HALF_RADIX + p01 % HALF_RADIX + p10 % HALF_RADIX;
        let lo: u128 = (mid % HALF_RADIX) * HALF_RADIX + p00 % HALF_RADIX;
        let ghost high: int = p11 + p01 / HALF_RADIX + p10 / HALF_RADIX + mid / HALF_RADIX;
        proof {
            // The words add up to the product, so the high word is below the radix and
            // none of the sums that build it can overflow.
            lemma_split_product(a as int, b as int, a1 as int, a0 as int, b1 as int, b0 as int);
            lemma_product_fits(a, b);
            assert(a as int * b as int == high * radix() + lo);
        }
        let hi: u128 = p11 + p01 / HALF_RADIX + p10 / HALF_RADIX + mid / HALF_RADIX;
        let r = Wide { hi, lo };
        proof {
            r.lemma_words_are_unique();
        }
        r
    }

    /// Whether `self` is strictly greater than `other`.
    pub fn exceeds(&self, other: &Wide) -> (r: bool)
        ensures
            r == (self@ > other@),
    {
        self.hi > other.hi || (self.hi == other.hi && self.lo > other.lo)
    }

    /// The distance between two numbers, and whether `self` is the smaller one.
    pub fn abs_diff(&self, other: &Wide) -> (r: (Wide, bool))
        ensures
            r.1 == (self@ < other@),
            r.0@ == vstd::math::abs(self@ - other@),
            r.0 == Wide::of(vstd::math::abs(self@ - other@) as nat),
    {
        let below = other.exceeds(self);
        let d = if below {
            Wide::minus(other, self)
        } else {
            Wide::minus(self, other)
        };
        proof {
            d.lemma_words_are_unique();
        }
        (d, below)
    }

    /// `large - small`, for `large` not below `small`.
    fn minus(large: &Wide, small: &Wide) -> (r: Wide)
        requires
            large@ >= small@,
        ensures
            r@ == large@ - small@,
    {
        if large.lo >= small.lo {
            Wide { hi: large.hi - small.hi, lo: large.lo - small.lo }
        } else {
            let lo: u128 = (u128::MAX - small.lo) + (large.lo + 1);
            Wide { hi: large.hi - small.hi - 1, lo }
        }
    }
}

/// The product of two words is below two to the power 256.
pub proof fn lemma_product_fits(a: u128, b: u128)
    ensures
        (a as nat) * (b as nat) < radix() * radix(),
{
    let r = radix() as int;
    assert(a as int * b as int <= (r - 1) * (r - 1)) by (nonlinear_arith)
        requires
            0 <= a <= r - 1,
            0 <= b <= r - 1,
    ;
    assert((r - 1) * (r - 1) < r * r) by (nonlinear_arith)
        requires
            r >= 1,
    ;
}

/// The product of two numbers below two to the power 64 fits in one word.
proof fn lemma_half_product_fits(x: u128, y: u128)
    requires
        x < HALF_RADIX,
        y < HALF_RADIX,
    ensures
        x * y <= u128::MAX,
{
    assert(x * y <= (HALF_RADIX - 1) * (HALF_RADIX - 1)) by (nonlinear_arith)
        requires
            0 <= x <= HALF_RADIX - 1,
            0 <= y <= HALF_RADIX - 1,
    ;
}

/// Schoolbook multiplication in radix two to the power 64.
proof fn lemma_split_product(a: int, b: int, a1: int, a0: int, b1: int, b0: int)
    requires
        a == a1 * HALF_RADIX + a0,
        b == b1 * HALF_RADIX + b0,
    ensures
        a * b == (a1 * b1) * radix() + (a0 * b1 + a1 * b0) * HALF_RADIX + a0 * b0,
{
    let h = HALF_RADIX as int;
    let x = a1 * h;
    let y = b1 * h;
    assert(radix() == h * h);
    assert((x + a0) * (y + b0) == x * y + x * b0 + a0 * y + a0 * b0) by (nonlinear_arith);
    assert(x * y == (a1 * b1) * (h * h)) by (nonlinear_arith)
        requires
            x == a1 * h,
            y == b1 * h,
    ;
    assert(x * b0 == (a1 * b0) * h) by (nonlinear_arith)
        requires
            x == a1 * h,
    ;
    assert(a0 * y == (a0 * b1) * h) by (nonlinear_arith)
        requires
            y == b1 * h,
    ;
    assert((a0 * b1) * h + (a1 * b0) * h == (a0 * b1 + a1 * b0) * h) by (nonlinear_arith);
}

} // verus!
