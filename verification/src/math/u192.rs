//! Unsigned 192-bit integers.
//!
//! A [`U192`] is three 64-bit words. Its view is the natural number the
//! words stand for, and every operation is stated over that number.

use vstd::arithmetic::div_mod::lemma_fundamental_div_mod_converse;
use vstd::arithmetic::power2::{lemma2_to64, lemma_pow2_adds, lemma_pow2_pos, lemma_pow2_unfold, pow2};
use vstd::prelude::*;

verus! {

/// Two to the power 64, the radix of the words of a [`U192`].
pub const RADIX: u128 = 0x1_0000_0000_0000_0000;

/// Two to the power 192: every [`U192`] is below it.
pub open spec fn limit() -> nat {
    0x1_0000_0000_0000_0000_0000_0000_0000_0000_0000_0000_0000_0000nat
}

/// The weight of the word that stands `shift` words above the lowest one.
pub open spec fn word_weight(shift: nat) -> nat {
    if shift == 0 {
        1
    } else if shift == 1 {
        0x1_0000_0000_0000_0000nat
    } else if shift == 2 {
        0x1_0000_0000_0000_0000_0000_0000_0000_0000nat
    } else if shift == 3 {
        0x1_0000_0000_0000_0000_0000_0000_0000_0000_0000_0000_0000_0000nat
    } else {
        0x1_0000_0000_0000_0000_0000_0000_0000_0000_0000_0000_0000_0000_0000_0000_0000_0000nat
    }
}

/// An unsigned integer of 192 bits, held as three 64-bit words.
#[derive(Clone, Copy, Debug, PartialEq, Eq, Structural)]
pub struct U192 {
    /// Bits 0 to 63.
    pub low: u64,
    /// Bits 64 to 127.
    pub mid: u64,
    /// Bits 128 to 191.
    pub high: u64,
}

impl View for U192 {
    type V = nat;

    /// The number the three words stand for.
    open spec fn view(&self) -> nat {
        self.low as nat + self.mid as nat * 0x1_0000_0000_0000_0000nat + self.high as nat
            * 0x1_0000_0000_0000_0000_0000_0000_0000_0000nat
    }
}

/// The value whose view is `n`, for `n` below [`limit`].
#[verifier::opaque]
pub open spec fn from_nat(n: nat) -> U192 {
    U192 {
        low: (n % 0x1_0000_0000_0000_0000nat) as u64,
        mid: ((n / 0x1_0000_0000_0000_0000nat) % 0x1_0000_0000_0000_0000nat) as u64,
        high: ((n / 0x1_0000_0000_0000_0000_0000_0000_0000_0000nat) % 0x1_0000_0000_0000_0000nat) as u64,
    }
}

/// [`from_nat`] inverts the view.
pub proof fn lemma_from_nat(n: nat)
    requires
        n < limit(),
    ensures
        from_nat(n)@ == n,
{
    reveal(from_nat);
    let low = n % 0x1_0000_0000_0000_0000nat;
    let upper = n / 0x1_0000_0000_0000_0000nat;
    let mid = upper % 0x1_0000_0000_0000_0000nat;
    let high = upper / 0x1_0000_0000_0000_0000nat;
    assert(n == upper * 0x1_0000_0000_0000_0000nat + low);
    assert(upper == high * 0x1_0000_0000_0000_0000nat + mid);
    assert(high == n / 0x1_0000_0000_0000_0000_0000_0000_0000_0000nat);
    assert(high < 0x1_0000_0000_0000_0000nat);
}

/// The view inverts [`from_nat`].
pub proof fn lemma_from_nat_of_view(a: U192)
    ensures
        from_nat(a@) == a,
{
    reveal(from_nat);
    let n = a@;
    let upper = a.mid as nat + a.high as nat * 0x1_0000_0000_0000_0000nat;
    assert(n == upper * 0x1_0000_0000_0000_0000nat + a.low as nat);
    assert(n / 0x1_0000_0000_0000_0000nat == upper);
    assert(n % 0x1_0000_0000_0000_0000nat == a.low as nat);
    assert(upper / 0x1_0000_0000_0000_0000nat == a.high as nat);
    assert(upper % 0x1_0000_0000_0000_0000nat == a.mid as nat);
    assert(n / 0x1_0000_0000_0000_0000_0000_0000_0000_0000nat == a.high as nat);
}

proof fn lemma_pow2_192()
    ensures
        pow2(192) == limit(),
        pow2(191) * 2 == limit(),
        pow2(0) == 1,
{
    lemma2_to64();
    lemma_pow2_adds(64, 64);
    lemma_pow2_adds(128, 64);
    lemma_pow2_unfold(192);
}

proof fn lemma_word_product(x: u64, y: u64)
    ensures
        x * y <= 0xffff_ffff_ffff_fffe_0000_0000_0000_0001,
{
    assert(x * y <= 0xffff_ffff_ffff_ffff * 0xffff_ffff_ffff_ffff) by (nonlinear_arith)
        requires
            0 <= x <= 0xffff_ffff_ffff_ffff,
            0 <= y <= 0xffff_ffff_ffff_ffff,
    ;
}

proof fn lemma_sum_times(x: int, y: int, z: int, w: int)
    ensures
        (x + y + z) * w == x * w + y * w + z * w,
        w * (x + y + z) == w * x + w * y + w * z,
{
    assert((x + y + z) * w == x * w + y * w + z * w) by (nonlinear_arith);
    assert(w * (x + y + z) == w * x + w * y + w * z) by (nonlinear_arith);
}

proof fn lemma_weighted_product(a: int, k: int, b: int, m: int)
    ensures
        (a * k) * (b * m) == (a * b) * (k * m),
{
    assert((a * k) * (b * m) == (a * b) * (k * m)) by (nonlinear_arith);
}

/// The product of two values, word by word.
proof fn lemma_product_by_words(a: U192, b: U192)
    ensures
        a@ * b@ == a.low * b.low * word_weight(0) + a.low * b.mid * word_weight(1) + a.low * b.high
            * word_weight(2) + a.mid * b.low * word_weight(1) + a.mid * b.mid * word_weight(2)
            + a.mid * b.high * word_weight(3) + a.high * b.low * word_weight(2) + a.high * b.mid
            * word_weight(3) + a.high * b.high * word_weight(4),
{
    let r = 0x1_0000_0000_0000_0000int;
    let r2 = 0x1_0000_0000_0000_0000_0000_0000_0000_0000int;
    let a0 = a.low as int;
    let a1 = a.mid as int;
    let a2 = a.high as int;
    let b0 = b.low as int;
    let b1 = b.mid as int;
    let b2 = b.high as int;
    let x = a@ as int;
    assert(x == a0 * 1 + a1 * r + a2 * r2);
    assert(b@ == b0 * 1 + b1 * r + b2 * r2);
    lemma_sum_times(b0 * 1, b1 * r, b2 * r2, x);
    lemma_sum_times(a0 * 1, a1 * r, a2 * r2, b0 * 1);
    lemma_sum_times(a0 * 1, a1 * r, a2 * r2, b1 * r);
    lemma_sum_times(a0 * 1, a1 * r, a2 * r2, b2 * r2);
    lemma_weighted_product(a0, 1, b0, 1);
    lemma_weighted_product(a1, r, b0, 1);
    lemma_weighted_product(a2, r2, b0, 1);
    lemma_weighted_product(a0, 1, b1, r);
    lemma_weighted_product(a1, r, b1, r);
    lemma_weighted_product(a2, r2, b1, r);
    lemma_weighted_product(a0, 1, b2, r2);
    lemma_weighted_product(a1, r, b2, r2);
    lemma_weighted_product(a2, r2, b2, r2);
}

/// One step of binary long division, over the numbers involved.
proof fn lemma_division_step(
    n: nat,
    d: nat,
    i: nat,
    hi: nat,
    lo: nat,
    rest: nat,
    q: nat,
    rem: nat,
    bit: nat,
)
    requires
        i < 192,
        d > 0,
        n == hi * pow2((192 - i) as nat) + lo,
        lo < pow2((192 - i) as nat),
        rest == lo * pow2(i),
        hi == q * d + rem,
        rem < d,
        q < pow2(i),
        bit == (if lo >= pow2((191 - i) as nat) {
            1nat
        } else {
            0nat
        }),
    ensures
        lo >= bit * pow2((191 - i) as nat),
        n == (2 * hi + bit) * pow2((191 - i) as nat) + (lo - bit * pow2((191 - i) as nat)),
        lo - bit * pow2((191 - i) as nat) < pow2((191 - i) as nat),
        rest + rest - bit * limit() == (lo - bit * pow2((191 - i) as nat)) * pow2(i + 1),
        (rest + rest >= limit()) == (bit == 1),
        2 * hi + bit == (q + q) * d + (rem + rem + bit),
        2 * hi + bit == (q + q + 1) * d + (rem + rem + bit - d),
        q + q + 1 < pow2(i + 1),
        pow2(i + 1) <= limit(),
{
    let p = pow2((192 - i) as nat);
    let p1 = pow2((191 - i) as nat);
    let w = pow2(i);
    lemma_pow2_unfold((192 - i) as nat);
    lemma_pow2_unfold(i + 1);
    lemma_pow2_adds(i, (192 - i) as nat);
    lemma_pow2_pos(i);
    lemma_pow2_pos((191 - i) as nat);
    lemma_pow2_192();
    assert(p == 2 * p1);
    assert(pow2(i + 1) == 2 * w);
    assert(w * p == limit());
    assert(w * p1 + w * p1 == limit()) by (nonlinear_arith)
        requires
            w * p == limit(),
            p == 2 * p1,
    ;
    assert(hi * p == (2 * hi) * p1) by (nonlinear_arith)
        requires
            p == 2 * p1,
    ;
    assert((2 * hi + bit) * p1 == (2 * hi) * p1 + bit * p1) by (nonlinear_arith);
    assert((lo - bit * p1) * (2 * w) == lo * w + lo * w - bit * (w * p1 + w * p1))
        by (nonlinear_arith);
    assert((q + q) * d == q * d + q * d) by (nonlinear_arith);
    assert((q + q + 1) * d == q * d + q * d + d) by (nonlinear_arith);
    assert((lo * w + lo * w >= w * p1 + w * p1) == (lo >= p1)) by (nonlinear_arith)
        requires
            w > 0,
    ;
    assert(2 * w <= limit()) by (nonlinear_arith)
        requires
            w * p1 + w * p1 == limit(),
            p1 >= 1,
            w >= 1,
    ;
}

impl U192 {
    /// Zero.
    pub fn zero() -> (r: U192)
        ensures
            r@ == 0,
    {
        U192 { low: 0, mid: 0, high: 0 }
    }

    /// One.
    pub fn one() -> (r: U192)
        ensures
            r@ == 1,
    {
        U192 { low: 1, mid: 0, high: 0 }
    }

    /// The value of a 64-bit integer.
    pub fn from_u64(value: u64) -> (r: U192)
        ensures
            r@ == value,
    {
        U192 { low: value, mid: 0, high: 0 }
    }

    /// The value of a 128-bit integer.
    pub fn from_u128(value: u128) -> (r: U192)
        ensures
            r@ == value,
    {
        U192 { low: (value % RADIX) as u64, mid: (value / RADIX) as u64, high: 0 }
    }

    /// Whether the value is zero.
    pub fn is_zero(&self) -> (r: bool)
        ensures
            r == (self@ == 0),
    {
        self.low == 0 && self.mid == 0 && self.high == 0
    }

    /// The value as a 64-bit integer, where it fits.
    pub fn try_to_u64(&self) -> (r: Option<u64>)
        ensures
            r == (if self@ <= u64::MAX {
                Some(self@ as u64)
            } else {
                None
            }),
    {
        if self.mid == 0 && self.high == 0 {
            Some(self.low)
        } else {
            None
        }
    }

    /// The value as a 128-bit integer, where it fits.
    pub fn try_to_u128(&self) -> (r: Option<u128>)
        ensures
            r == (if self@ <= u128::MAX {
                Some(self@ as u128)
            } else {
                None
            }),
    {
        if self.high == 0 {
            Some(self.low as u128 + self.mid as u128 * RADIX)
        } else {
            None
        }
    }

    /// Whether `self` is less than `other`.
    pub fn lt(&self, other: &U192) -> (r: bool)
        ensures
            r == (self@ < other@),
    {
        if self.high != other.high {
            self.high < other.high
        } else if self.mid != other.mid {
            self.mid < other.mid
        } else {
            self.low < other.low
        }
    }

    /// Whether `self` is at most `other`.
    pub fn le(&self, other: &U192) -> (r: bool)
        ensures
            r == (self@ <= other@),
    {
        !other.lt(self)
    }

    /// Whether `self` is greater than `other`.
    pub fn gt(&self, other: &U192) -> (r: bool)
        ensures
            r == (self@ > other@),
    {
        other.lt(self)
    }

    /// Whether `self` is at least `other`.
    pub fn ge(&self, other: &U192) -> (r: bool)
        ensures
            r == (self@ >= other@),
    {
        !self.lt(other)
    }

    /// The sum modulo two to the 192, and whether it wrapped.
    pub fn overflowing_add(self, rhs: U192) -> (r: (U192, bool))
        ensures
            r.1 == (self@ + rhs@ >= limit()),
            r.0@ == (if r.1 {
                self@ + rhs@ - limit()
            } else {
                (self@ + rhs@) as int
            }),
    {
        let s0: u128 = self.low as u128 + rhs.low as u128;
        let c0: u128 = s0 / RADIX;
        let s1: u128 = self.mid as u128 + rhs.mid as u128 + c0;
        let c1: u128 = s1 / RADIX;
        let s2: u128 = self.high as u128 + rhs.high as u128 + c1;
        let c2: u128 = s2 / RADIX;
        let sum = U192 {
            low: (s0 % RADIX) as u64,
            mid: (s1 % RADIX) as u64,
            high: (s2 % RADIX) as u64,
        };
        (sum, c2 != 0)
    }

    /// The difference modulo two to the 192, and whether it wrapped.
    pub fn overflowing_sub(self, rhs: U192) -> (r: (U192, bool))
        ensures
            r.1 == (self@ < rhs@),
            r.0@ == (if r.1 {
                self@ + limit() - rhs@
            } else {
                self@ - rhs@
            }),
    {
        let t0: u128 = RADIX + self.low as u128 - rhs.low as u128;
        let b0: u128 = 1 - t0 / RADIX;
        let t1: u128 = RADIX + self.mid as u128 - rhs.mid as u128 - b0;
        let b1: u128 = 1 - t1 / RADIX;
        let t2: u128 = RADIX + self.high as u128 - rhs.high as u128 - b1;
        let b2: u128 = 1 - t2 / RADIX;
        let difference = U192 {
            low: (t0 % RADIX) as u64,
            mid: (t1 % RADIX) as u64,
            high: (t2 % RADIX) as u64,
        };
        (difference, b2 != 0)
    }

    /// The sum, unless it does not fit.
    pub fn checked_add(self, rhs: U192) -> (r: Option<U192>)
        ensures
            match r {
                Some(sum) => sum@ == self@ + rhs@,
                None => self@ + rhs@ >= limit(),
            },
    {
        let (sum, wrapped) = self.overflowing_add(rhs);
        if wrapped {
            None
        } else {
            Some(sum)
        }
    }

    /// The difference, unless it would be negative.
    pub fn checked_sub(self, rhs: U192) -> (r: Option<U192>)
        ensures
            match r {
                Some(difference) => difference@ == self@ - rhs@,
                None => self@ < rhs@,
            },
    {
        let (difference, wrapped) = self.overflowing_sub(rhs);
        if wrapped {
            None
        } else {
            Some(difference)
        }
    }

    /// The difference, or zero where it would be negative.
    pub fn saturating_sub(self, rhs: U192) -> (r: U192)
        ensures
            r@ == (if self@ < rhs@ {
                0
            } else {
                self@ - rhs@
            }),
    {
        let (difference, wrapped) = self.overflowing_sub(rhs);
        if wrapped {
            U192::zero()
        } else {
            difference
        }
    }

    /// Adds the product of two words, weighted by its place, to `self`.
    fn add_word_product(self, x: u64, y: u64, shift: u8) -> (r: Option<U192>)
        requires
            shift <= 4,
        ensures
            match r {
                Some(sum) => sum@ == self@ + x * y * word_weight(shift as nat),
                None => self@ + x * y * word_weight(shift as nat) >= limit(),
            },
    {
        proof {
            lemma_word_product(x, y);
        }
        let product: u128 = x as u128 * y as u128;
        let ghost weight = word_weight(shift as nat);
        assert(x * y * weight == product * weight) by (nonlinear_arith)
            requires
                product == x * y,
        ;
        let term = if shift == 0 {
            U192::from_u128(product)
        } else if shift == 1 {
            U192 { low: 0, mid: (product % RADIX) as u64, high: (product / RADIX) as u64 }
        } else if shift == 2 {
            if product / RADIX != 0 {
                return None;
            }
            U192 { low: 0, mid: 0, high: (product % RADIX) as u64 }
        } else {
            if product != 0 {
                return None;
            }
            U192::zero()
        };
        self.checked_add(term)
    }

    /// The product, unless it does not fit.
    pub fn checked_mul(self, rhs: U192) -> (r: Option<U192>)
        ensures
            match r {
                Some(product) => product@ == self@ * rhs@,
                None => self@ * rhs@ >= limit(),
            },
    {
        proof {
            lemma_product_by_words(self, rhs);
        }
        let acc = U192::zero();
        let acc = match acc.add_word_product(self.low, rhs.low, 0) {
            Some(sum) => sum,
            None => { return None; },
        };
        let acc = match acc.add_word_product(self.low, rhs.mid, 1) {
            Some(sum) => sum,
            None => { return None; },
        };
        let acc = match acc.add_word_product(self.low, rhs.high, 2) {
            Some(sum) => sum,
            None => { return None; },
        };
        let acc = match acc.add_word_product(self.mid, rhs.low, 1) {
            Some(sum) => sum,
            None => { return None; },
        };
        let acc = match acc.add_word_product(self.mid, rhs.mid, 2) {
            Some(sum) => sum,
            None => { return None; },
        };
        let acc = match acc.add_word_product(self.mid, rhs.high, 3) {
            Some(sum) => sum,
            None => { return None; },
        };
        let acc = match acc.add_word_product(self.high, rhs.low, 2) {
            Some(sum) => sum,
            None => { return None; },
        };
        let acc = match acc.add_word_product(self.high, rhs.mid, 3) {
            Some(sum) => sum,
            None => { return None; },
        };
        acc.add_word_product(self.high, rhs.high, 4)
    }

    /// Quotient and remainder of the division by a divisor that is not zero.
    pub fn div_rem(self, divisor: U192) -> (r: (U192, U192))
        requires
            divisor@ > 0,
        ensures
            r.0@ == self@ / divisor@,
            r.1@ == self@ % divisor@,
    {
        let mut quotient = U192::zero();
        let mut remainder = U192::zero();
        let mut rest = self;
        let mut i: u32 = 0;
        let ghost mut hi: nat = 0;
        let ghost mut lo: nat = self@;
        proof {
            lemma_pow2_192();
        }
        while i < 192
            invariant
                i <= 192,
                divisor@ > 0,
                self@ == hi * pow2((192 - i) as nat) + lo,
                lo < pow2((192 - i) as nat),
                rest@ == lo * pow2(i as nat),
                hi == quotient@ * divisor@ + remainder@,
                remainder@ < divisor@,
                quotient@ < pow2(i as nat),
            decreases 192 - i,
        {
            let ghost bit: nat = if lo >= pow2((191 - i) as nat) {
                1
            } else {
                0
            };
            proof {
                lemma_division_step(
                    self@,
                    divisor@,
                    i as nat,
                    hi,
                    lo,
                    rest@,
                    quotient@,
                    remainder@,
                    bit,
                );
            }
            let (next_rest, top) = rest.overflowing_add(rest);
            let (doubled, carry) = remainder.overflowing_add(remainder);
            let (with_bit, _) = if top {
                doubled.overflowing_add(U192::one())
            } else {
                (doubled, false)
            };
            let (reduced, borrow) = with_bit.overflowing_sub(divisor);
            let (twice, _) = quotient.overflowing_add(quotient);
            if carry || !borrow {
                remainder = reduced;
                let (next, _) = twice.overflowing_add(U192::one());
                quotient = next;
            } else {
                remainder = with_bit;
                quotient = twice;
            }
            rest = next_rest;
            proof {
                hi = 2 * hi + bit;
                lo = (lo - bit * pow2((191 - i) as nat)) as nat;
            }
            i = i + 1;
        }
        proof {
            lemma_pow2_192();
            assert(hi * pow2(0) == hi) by (nonlinear_arith)
                requires
                    pow2(0) == 1,
            ;
            assert(self@ == quotient@ * divisor@ + remainder@);
            lemma_fundamental_div_mod_converse(
                self@ as int,
                divisor@ as int,
                quotient@ as int,
                remainder@ as int,
            );
        }
        (quotient, remainder)
    }

    /// The quotient, unless the divisor is zero.
    pub fn checked_div(self, divisor: U192) -> (r: Option<U192>)
        ensures
            match r {
                Some(quotient) => divisor@ != 0 && quotient@ == self@ / divisor@,
                None => divisor@ == 0,
            },
    {
        if divisor.is_zero() {
            None
        } else {
            Some(self.div_rem(divisor).0)
        }
    }
}

impl Default for U192 {
    /// Zero.
    fn default() -> (r: U192)
        ensures
            r@ == 0,
    {
        U192::zero()
    }
}

} // verus!
