//! Fixed-point decimals with 18 decimal places.
//!
//! A [`Decimal`] holds a scaled value: the number it stands for, times
//! [`WAD`]. Its view is that scaled value as a natural number below
//! [`limit`]. No operation wraps: one whose exact result does not fit, or
//! would be negative, fails with [`ErrorCode::MathOverflow`], and a division
//! by zero fails with [`ErrorCode::DivisionByZero`].

use crate::error::ErrorCode;
use crate::math::common::{half_wad, percent_scaler, wad, HALF_WAD, WAD};
use crate::math::u192::{from_nat, lemma_from_nat, lemma_from_nat_of_view, limit, U192};
use vstd::bytes::{
    lemma_auto_spec_u64_to_from_le_bytes, spec_u64_from_le_bytes, spec_u64_to_le_bytes,
    u64_from_le_bytes, u64_to_le_bytes,
};
use vstd::prelude::*;
use vstd::slice::slice_subrange;

verus! {

/// The scaled value of the sum of two scaled values.
pub open spec fn scaled_add(a: nat, b: nat) -> Result<nat, ErrorCode> {
    if a + b >= limit() {
        Err(ErrorCode::MathOverflow)
    } else {
        Ok(a + b)
    }
}

/// The scaled value of the difference of two scaled values.
pub open spec fn scaled_sub(a: nat, b: nat) -> Result<nat, ErrorCode> {
    if a < b {
        Err(ErrorCode::MathOverflow)
    } else {
        Ok((a - b) as nat)
    }
}

/// The scaled value of the product of two scaled values, rounded down.
///
/// The product of the scaled values themselves has to fit.
pub open spec fn scaled_mul(a: nat, b: nat) -> Result<nat, ErrorCode> {
    if a * b >= limit() {
        Err(ErrorCode::MathOverflow)
    } else {
        Ok(a * b / wad())
    }
}

/// The scaled value of the quotient of two scaled values, rounded down.
///
/// The dividend, scaled once more, has to fit.
pub open spec fn scaled_div(a: nat, b: nat) -> Result<nat, ErrorCode> {
    if a * wad() >= limit() {
        Err(ErrorCode::MathOverflow)
    } else if b == 0 {
        Err(ErrorCode::DivisionByZero)
    } else {
        Ok(a * wad() / b)
    }
}

/// The scaled value of a scaled value times an integer.
pub open spec fn scaled_mul_int(a: nat, n: nat) -> Result<nat, ErrorCode> {
    if a * n >= limit() {
        Err(ErrorCode::MathOverflow)
    } else {
        Ok(a * n)
    }
}

/// The scaled value of a scaled value divided by an integer, rounded down.
pub open spec fn scaled_div_int(a: nat, n: nat) -> Result<nat, ErrorCode> {
    if n == 0 {
        Err(ErrorCode::DivisionByZero)
    } else {
        Ok(a / n)
    }
}

/// The integer nearest below `(a + offset) / WAD`, where it fits 64 bits.
pub open spec fn scaled_to_u64(a: nat, offset: nat) -> Result<u64, ErrorCode> {
    if a + offset >= limit() || (a + offset) / wad() > u64::MAX {
        Err(ErrorCode::MathOverflow)
    } else {
        Ok(((a + offset) / wad()) as u64)
    }
}

/// A decimal number with 18 decimal places, held as its scaled value.
#[derive(Clone, Copy, Debug, PartialEq, Eq, Structural)]
pub struct Decimal(pub U192);

impl View for Decimal {
    type V = nat;

    /// The scaled value.
    open spec fn view(&self) -> nat {
        self.0@
    }
}

/// The views of a fallible decimal result.
pub open spec fn scaled(r: Result<Decimal, ErrorCode>) -> Result<nat, ErrorCode> {
    match r {
        Ok(d) => Ok(d@),
        Err(e) => Err(e),
    }
}

/// The decimal with the given scaled value, for a value below [`limit`].
pub open spec fn decimal_of(value: nat) -> Decimal {
    Decimal(from_nat(value))
}

/// [`decimal_of`] inverts the view, and the view inverts [`decimal_of`].
pub proof fn lemma_decimal_of(value: nat, d: Decimal)
    ensures
        value < limit() ==> decimal_of(value)@ == value,
        decimal_of(d@) == d,
        d@ < limit(),
{
    if value < limit() {
        lemma_from_nat(value);
    }
    lemma_from_nat_of_view(d.0);
}

/// The decimal results that stand for fallible scaled values.
pub open spec fn lift(r: Result<nat, ErrorCode>) -> Result<Decimal, ErrorCode> {
    match r {
        Ok(value) => Ok(decimal_of(value)),
        Err(e) => Err(e),
    }
}

impl Decimal {
    /// What [`Decimal::zero`] returns.
    pub open spec fn spec_zero() -> Decimal {
        decimal_of(0)
    }

    /// What [`Decimal::one`] returns.
    pub open spec fn spec_one() -> Decimal {
        decimal_of(wad())
    }

    /// What [`Decimal::from_percent`] and [`Decimal::from_percent_u64`] return.
    pub open spec fn spec_from_percent(percent: nat) -> Decimal {
        decimal_of(percent * percent_scaler())
    }

    /// What [`Decimal::from_deca_bps`] returns.
    pub open spec fn spec_from_deca_bps(deca_bps: nat) -> Decimal {
        decimal_of(deca_bps * wad() / 1000)
    }

    /// What [`Decimal::from_bps`] returns.
    pub open spec fn spec_from_bps(bps: nat) -> Decimal {
        decimal_of(bps * wad() / 10_000)
    }

    /// What [`Decimal::from_u64`] and [`Decimal::from_u128`] return.
    pub open spec fn spec_from_int(value: nat) -> Decimal {
        decimal_of(value * wad())
    }

    /// What [`Decimal::from_scaled_val`] returns.
    pub open spec fn spec_from_scaled_val(scaled_val: nat) -> Decimal {
        decimal_of(scaled_val)
    }

    /// What [`Decimal::try_add`] returns.
    pub open spec fn spec_try_add(self, rhs: Decimal) -> Result<Decimal, ErrorCode> {
        lift(scaled_add(self@, rhs@))
    }

    /// What [`Decimal::try_sub`] returns.
    pub open spec fn spec_try_sub(self, rhs: Decimal) -> Result<Decimal, ErrorCode> {
        lift(scaled_sub(self@, rhs@))
    }

    /// What [`Decimal::saturating_sub`] returns.
    pub open spec fn spec_saturating_sub(self, rhs: Decimal) -> Decimal {
        if self@ < rhs@ {
            decimal_of(0)
        } else {
            decimal_of((self@ - rhs@) as nat)
        }
    }

    /// What [`Decimal::try_mul`] returns.
    pub open spec fn spec_try_mul(self, rhs: Decimal) -> Result<Decimal, ErrorCode> {
        lift(scaled_mul(self@, rhs@))
    }

    /// What [`Decimal::try_mul_u64`] returns.
    pub open spec fn spec_try_mul_u64(self, rhs: u64) -> Result<Decimal, ErrorCode> {
        lift(scaled_mul_int(self@, rhs as nat))
    }

    /// What [`Decimal::try_mul_u128`] returns.
    pub open spec fn spec_try_mul_u128(self, rhs: u128) -> Result<Decimal, ErrorCode> {
        lift(scaled_mul_int(self@, rhs as nat))
    }

    /// What [`Decimal::try_div_u128`] returns.
    pub open spec fn spec_try_div_u128(self, rhs: u128) -> Result<Decimal, ErrorCode> {
        lift(scaled_div_int(self@, rhs as nat))
    }

    /// What [`Decimal::try_div`] returns.
    pub open spec fn spec_try_div(self, rhs: Decimal) -> Result<Decimal, ErrorCode> {
        lift(scaled_div(self@, rhs@))
    }

    /// What [`Decimal::try_div_u64`] returns.
    pub open spec fn spec_try_div_u64(self, rhs: u64) -> Result<Decimal, ErrorCode> {
        lift(scaled_div_int(self@, rhs as nat))
    }

    /// What [`Decimal::try_round_u64`] returns.
    pub open spec fn spec_try_round_u64(self) -> Result<u64, ErrorCode> {
        scaled_to_u64(self@, half_wad())
    }

    /// What [`Decimal::try_ceil_u64`] returns.
    pub open spec fn spec_try_ceil_u64(self) -> Result<u64, ErrorCode> {
        scaled_to_u64(self@, (wad() - 1) as nat)
    }

    /// What [`Decimal::try_floor_u64`] returns.
    pub open spec fn spec_try_floor_u64(self) -> Result<u64, ErrorCode> {
        scaled_to_u64(self@, 0)
    }

    /// What [`Decimal::to_scaled_val`] returns.
    pub open spec fn spec_to_scaled_val(self) -> Result<u128, ErrorCode> {
        if self@ <= u128::MAX {
            Ok(self@ as u128)
        } else {
            Err(ErrorCode::MathOverflow)
        }
    }

    /// What [`Decimal::min`] returns.
    pub open spec fn spec_min(self, other: Decimal) -> Decimal {
        if other@ < self@ {
            other
        } else {
            self
        }
    }

    /// What [`Decimal::max`] returns.
    pub open spec fn spec_max(self, other: Decimal) -> Decimal {
        if other@ > self@ {
            other
        } else {
            self
        }
    }

    /// The decimal whose words are the given ones, proved equal to [`decimal_of`] of its value.
    fn of_words(words: U192) -> (r: Decimal)
        ensures
            r@ == words@,
            r == decimal_of(words@),
    {
        let r = Decimal(words);
        proof {
            lemma_decimal_of(0, r);
        }
        r
    }

    /// One.
    pub fn one() -> (r: Decimal)
        ensures
            r@ == wad(),
            r == Self::spec_one(),
    {
        Self::of_words(Self::wad())
    }

    /// Zero.
    pub fn zero() -> (r: Decimal)
        ensures
            r@ == 0,
            r == Self::spec_zero(),
    {
        Self::of_words(U192::zero())
    }

    /// The scale as a 192-bit integer.
    pub fn wad() -> (r: U192)
        ensures
            r@ == wad(),
    {
        U192::from_u64(WAD)
    }

    /// Half the scale as a 192-bit integer.
    pub fn half_wad() -> (r: U192)
        ensures
            r@ == half_wad(),
    {
        U192::from_u64(HALF_WAD)
    }

    /// The decimal that stands for `percent` hundredths.
    pub fn from_percent(percent: u8) -> (r: Decimal)
        ensures
            r@ == percent * percent_scaler(),
            r == Self::spec_from_percent(percent as nat),
    {
        Self::of_words(U192::from_u64(percent as u64 * 10_000_000_000_000_000))
    }

    /// The decimal that stands for `percent` hundredths, for a 64-bit count.
    pub fn from_percent_u64(percent: u64) -> (r: Decimal)
        ensures
            r@ == percent * percent_scaler(),
            r == Self::spec_from_percent(percent as nat),
    {
        Self::of_words(U192::from_u128(percent as u128 * 10_000_000_000_000_000))
    }

    /// The decimal that stands for `deca_bps` thousandths.
    pub fn from_deca_bps(deca_bps: u8) -> (r: Decimal)
        ensures
            r@ == deca_bps * wad() / 1000,
            r == Self::spec_from_deca_bps(deca_bps as nat),
    {
        let scaled_val: u128 = deca_bps as u128 * 1_000_000_000_000_000_000 / 1000;
        Self::of_words(U192::from_u128(scaled_val))
    }

    /// The decimal that stands for `bps` ten-thousandths.
    pub fn from_bps(bps: u64) -> (r: Decimal)
        ensures
            r@ == bps * wad() / 10_000,
            r == Self::spec_from_bps(bps as nat),
    {
        let scaled_val: u128 = bps as u128 * 1_000_000_000_000_000_000 / 10_000;
        Self::of_words(U192::from_u128(scaled_val))
    }

    /// The decimal that stands for the integer `value`.
    pub fn from_u64(value: u64) -> (r: Decimal)
        ensures
            r@ == value * wad(),
            r == Self::spec_from_int(value as nat),
    {
        Self::of_words(U192::from_u128(value as u128 * 1_000_000_000_000_000_000))
    }

    /// The decimal that stands for the integer `value`.
    pub fn from_u128(value: u128) -> (r: Decimal)
        ensures
            r@ == value * wad(),
            r == Self::spec_from_int(value as nat),
    {
        let product = U192::from_u128(value).checked_mul(Self::wad());
        
        Self::of_words(product.unwrap())
    }

    /// The scaled value, where it fits 128 bits.
    pub fn to_scaled_val(&self) -> (r: Result<u128, ErrorCode>)
        ensures
            r == self.spec_to_scaled_val(),
    {
        match self.0.try_to_u128() {
            Some(value) => Ok(value),
            None => Err(ErrorCode::MathOverflow),
        }
    }

    /// The decimal with the given scaled value.
    pub fn from_scaled_val(scaled_val: u128) -> (r: Decimal)
        ensures
            r@ == scaled_val,
            r == Self::spec_from_scaled_val(scaled_val as nat),
    {
        Self::of_words(U192::from_u128(scaled_val))
    }

    /// `(self + offset) / WAD` as a 64-bit integer.
    fn shifted_to_u64(&self, offset: U192) -> (r: Result<u64, ErrorCode>)
        ensures
            r == scaled_to_u64(self@, offset@),
    {
        let shifted = match offset.checked_add(self.0) {
            Some(sum) => sum,
            None => { return Err(ErrorCode::MathOverflow); },
        };
        let (quotient, _) = shifted.div_rem(Self::wad());
        match quotient.try_to_u64() {
            Some(value) => Ok(value),
            None => Err(ErrorCode::MathOverflow),
        }
    }

    /// The nearest integer, halves rounded up.
    pub fn try_round_u64(&self) -> (r: Result<u64, ErrorCode>)
        ensures
            r == self.spec_try_round_u64(),
    {
        self.shifted_to_u64(Self::half_wad())
    }

    /// The least integer that is not below the decimal.
    pub fn try_ceil_u64(&self) -> (r: Result<u64, ErrorCode>)
        ensures
            r == self.spec_try_ceil_u64(),
    {
        self.shifted_to_u64(U192::from_u64(WAD - 1))
    }

    /// The greatest integer that is not above the decimal.
    pub fn try_floor_u64(&self) -> (r: Result<u64, ErrorCode>)
        ensures
            r == self.spec_try_floor_u64(),
    {
        self.shifted_to_u64(U192::zero())
    }

    /// The sum.
    pub fn try_add(self, rhs: Decimal) -> (r: Result<Decimal, ErrorCode>)
        ensures
            scaled(r) == scaled_add(self@, rhs@),
            r == self.spec_try_add(rhs),
    {
        match self.0.checked_add(rhs.0) {
            Some(sum) => Ok(Self::of_words(sum)),
            None => Err(ErrorCode::MathOverflow),
        }
    }

    /// The difference.
    pub fn try_sub(self, rhs: Decimal) -> (r: Result<Decimal, ErrorCode>)
        ensures
            scaled(r) == scaled_sub(self@, rhs@),
            r == self.spec_try_sub(rhs),
    {
        match self.0.checked_sub(rhs.0) {
            Some(difference) => Ok(Self::of_words(difference)),
            None => Err(ErrorCode::MathOverflow),
        }
    }

    /// The difference, or zero where it would be negative.
    pub fn saturating_sub(self, rhs: Decimal) -> (r: Decimal)
        ensures
            r@ == (if self@ < rhs@ {
                0
            } else {
                self@ - rhs@
            }),
            r == self.spec_saturating_sub(rhs),
    {
        Self::of_words(self.0.saturating_sub(rhs.0))
    }

    /// The product with another decimal, rounded down.
    pub fn try_mul(self, rhs: Decimal) -> (r: Result<Decimal, ErrorCode>)
        ensures
            scaled(r) == scaled_mul(self@, rhs@),
            r == self.spec_try_mul(rhs),
    {
        match self.0.checked_mul(rhs.0) {
            Some(product) => Ok(Self::of_words(product.div_rem(Self::wad()).0)),
            None => Err(ErrorCode::MathOverflow),
        }
    }

    /// The product with an integer.
    pub fn try_mul_u64(self, rhs: u64) -> (r: Result<Decimal, ErrorCode>)
        ensures
            scaled(r) == scaled_mul_int(self@, rhs as nat),
            r == self.spec_try_mul_u64(rhs),
    {
        match self.0.checked_mul(U192::from_u64(rhs)) {
            Some(product) => Ok(Self::of_words(product)),
            None => Err(ErrorCode::MathOverflow),
        }
    }

    /// The product with an integer of up to 128 bits.
    pub fn try_mul_u128(self, rhs: u128) -> (r: Result<Decimal, ErrorCode>)
        ensures
            scaled(r) == scaled_mul_int(self@, rhs as nat),
            r == self.spec_try_mul_u128(rhs),
    {
        match self.0.checked_mul(U192::from_u128(rhs)) {
            Some(product) => Ok(Self::of_words(product)),
            None => Err(ErrorCode::MathOverflow),
        }
    }

    /// The quotient by an integer of up to 128 bits, rounded down.
    pub fn try_div_u128(self, rhs: u128) -> (r: Result<Decimal, ErrorCode>)
        ensures
            scaled(r) == scaled_div_int(self@, rhs as nat),
            r == self.spec_try_div_u128(rhs),
    {
        match self.0.checked_div(U192::from_u128(rhs)) {
            Some(quotient) => Ok(Self::of_words(quotient)),
            None => Err(ErrorCode::DivisionByZero),
        }
    }

    /// The quotient by another decimal, rounded down.
    pub fn try_div(self, rhs: Decimal) -> (r: Result<Decimal, ErrorCode>)
        ensures
            scaled(r) == scaled_div(self@, rhs@),
            r == self.spec_try_div(rhs),
    {
        let rescaled = match self.0.checked_mul(Self::wad()) {
            Some(product) => product,
            None => { return Err(ErrorCode::MathOverflow); },
        };
        match rescaled.checked_div(rhs.0) {
            Some(quotient) => Ok(Self::of_words(quotient)),
            None => Err(ErrorCode::DivisionByZero),
        }
    }

    /// The quotient by an integer, rounded down.
    pub fn try_div_u64(self, rhs: u64) -> (r: Result<Decimal, ErrorCode>)
        ensures
            scaled(r) == scaled_div_int(self@, rhs as nat),
            r == self.spec_try_div_u64(rhs),
    {
        match self.0.checked_div(U192::from_u64(rhs)) {
            Some(quotient) => Ok(Self::of_words(quotient)),
            None => Err(ErrorCode::DivisionByZero),
        }
    }

    /// Whether `self` is less than `other`.
    pub fn lt(&self, other: &Decimal) -> (r: bool)
        ensures
            r == (self@ < other@),
    {
        self.0.lt(&other.0)
    }

    /// Whether `self` is at most `other`.
    pub fn le(&self, other: &Decimal) -> (r: bool)
        ensures
            r == (self@ <= other@),
    {
        self.0.le(&other.0)
    }

    /// Whether `self` is greater than `other`.
    pub fn gt(&self, other: &Decimal) -> (r: bool)
        ensures
            r == (self@ > other@),
    {
        self.0.gt(&other.0)
    }

    /// Whether `self` is at least `other`.
    pub fn ge(&self, other: &Decimal) -> (r: bool)
        ensures
            r == (self@ >= other@),
    {
        self.0.ge(&other.0)
    }

    /// Whether the decimal is zero.
    pub fn is_zero(&self) -> (r: bool)
        ensures
            r == (self@ == 0),
    {
        self.0.is_zero()
    }

    /// The lesser of two decimals.
    pub fn min(self, other: Decimal) -> (r: Decimal)
        ensures
            r == self.spec_min(other),
    {
        if other.lt(&self) {
            other
        } else {
            self
        }
    }

    /// The greater of two decimals.
    pub fn max(self, other: Decimal) -> (r: Decimal)
        ensures
            r == self.spec_max(other),
    {
        if other.gt(&self) {
            other
        } else {
            self
        }
    }
}

/// The scaled values of the results of the operations on decimals.
///
/// A result that is `Ok` holds the decimal whose scaled value the
/// corresponding function on scaled values gives.
pub proof fn lemma_scaled_results(a: Decimal, b: Decimal, n: u128)
    ensures
        scaled(a.spec_try_mul_u128(n)) == scaled_mul_int(a@, n as nat),
        scaled(a.spec_try_div_u128(n)) == scaled_div_int(a@, n as nat),
        scaled(a.spec_try_add(b)) == scaled_add(a@, b@),
        scaled(a.spec_try_sub(b)) == scaled_sub(a@, b@),
        scaled(a.spec_try_mul(b)) == scaled_mul(a@, b@),
        scaled(a.spec_try_div(b)) == scaled_div(a@, b@),
        n <= u64::MAX ==> scaled(a.spec_try_mul_u64(n as u64)) == scaled_mul_int(a@, n as nat),
        n <= u64::MAX ==> scaled(a.spec_try_div_u64(n as u64)) == scaled_div_int(a@, n as nat),
        a.spec_saturating_sub(b)@ == (if a@ < b@ {
            0
        } else {
            a@ - b@
        }),
        a@ < limit(),
        b@ < limit(),
{
    lemma_decimal_of(0, a);
    lemma_decimal_of(0, b);
    if a@ + b@ < limit() {
        lemma_decimal_of(a@ + b@, a);
    }
    if a@ >= b@ {
        lemma_decimal_of((a@ - b@) as nat, a);
    }
    if a@ * b@ < limit() {
        assert(a@ * b@ / wad() <= a@ * b@);
        lemma_decimal_of(a@ * b@ / wad(), a);
    }
    if a@ * wad() < limit() && b@ != 0 {
        vstd::arithmetic::div_mod::lemma_div_is_ordered_by_denominator(
            (a@ * wad()) as int,
            1,
            b@ as int,
        );
        lemma_decimal_of(a@ * wad() / b@, a);
    }
    if a@ * (n as nat) < limit() {
        lemma_decimal_of(a@ * (n as nat), a);
    }
    if n != 0 {
        vstd::arithmetic::div_mod::lemma_div_is_ordered_by_denominator(a@ as int, 1, n as int);
        lemma_decimal_of(a@ / (n as nat), a);
    }
}

/// The scaled values of the decimals that the constructors give.
pub proof fn lemma_scaled_constants(value: u128, percent: u64)
    ensures
        Decimal::spec_zero()@ == 0,
        Decimal::spec_one()@ == wad(),
        Decimal::spec_from_int(value as nat)@ == value * wad(),
        Decimal::spec_from_scaled_val(value as nat)@ == value,
        Decimal::spec_from_percent(percent as nat)@ == percent * percent_scaler(),
        Decimal::spec_from_bps(percent as nat)@ == percent * wad() / 10_000,
        Decimal::spec_from_deca_bps(percent as nat)@ == percent * wad() / 1000,
{
    let d = Decimal::spec_zero();
    lemma_decimal_of(0, d);
    lemma_decimal_of(wad(), d);
    lemma_decimal_of(value as nat * wad(), d);
    lemma_decimal_of(value as nat, d);
    lemma_decimal_of(percent as nat * percent_scaler(), d);
    lemma_decimal_of(percent as nat * wad() / 10_000, d);
    lemma_decimal_of(percent as nat * wad() / 1000, d);
}

impl Decimal {
    /// The 24 bytes that a decimal is stored as: the three words of its
    /// scaled value, the lowest first, each with its lowest byte first.
    pub open spec fn spec_serialize(self) -> Seq<u8> {
        spec_u64_to_le_bytes(self.0.low) + spec_u64_to_le_bytes(self.0.mid) + spec_u64_to_le_bytes(
            self.0.high,
        )
    }

    /// The decimal that the first 24 bytes store, where there are as many.
    pub open spec fn spec_deserialize(bytes: Seq<u8>) -> Option<Decimal> {
        if bytes.len() < 24 {
            None
        } else {
            Some(
                Decimal(
                    U192 {
                        low: spec_u64_from_le_bytes(bytes.subrange(0, 8)),
                        mid: spec_u64_from_le_bytes(bytes.subrange(8, 16)),
                        high: spec_u64_from_le_bytes(bytes.subrange(16, 24)),
                    },
                ),
            )
        }
    }

    /// The bytes that the decimal is stored as.
    pub fn serialize(&self) -> (r: Vec<u8>)
        ensures
            r@ == self.spec_serialize(),
            r@.len() == 24,
    {
        let mut bytes = u64_to_le_bytes(self.0.low);
        let mut mid = u64_to_le_bytes(self.0.mid);
        let mut high = u64_to_le_bytes(self.0.high);
        bytes.append(&mut mid);
        bytes.append(&mut high);
        bytes
    }

    /// The decimal stored in the first 24 bytes; `None` where there are fewer.
    pub fn deserialize(bytes: &[u8]) -> (r: Option<Decimal>)
        ensures
            r == Self::spec_deserialize(bytes@),
    {
        if bytes.len() < 24 {
            return None;
        }
        let low: u64 = u64_from_le_bytes(slice_subrange(bytes, 0, 8));
        let mid: u64 = u64_from_le_bytes(slice_subrange(bytes, 8, 16));
        let high: u64 = u64_from_le_bytes(slice_subrange(bytes, 16, 24));
        Some(Decimal(U192 { low, mid, high }))
    }
}

/// What is stored of a decimal is read back as the same decimal.
pub proof fn lemma_serialize_round_trip(d: Decimal)
    ensures
        d.spec_serialize().len() == 24,
        Decimal::spec_deserialize(d.spec_serialize()) == Some(d),
{
    lemma_auto_spec_u64_to_from_le_bytes();
    let low = spec_u64_to_le_bytes(d.0.low);
    let mid = spec_u64_to_le_bytes(d.0.mid);
    let high = spec_u64_to_le_bytes(d.0.high);
    let bytes = d.spec_serialize();
    assert(bytes.subrange(0, 8) == low);
    assert(bytes.subrange(8, 16) == mid);
    assert(bytes.subrange(16, 24) == high);
}

impl From<u64> for Decimal {
    fn from(val: u64) -> (r: Decimal) {
        let r = Decimal::from_u64(val);
        proof {
            lemma_decimal_of(0, r);
        }
        r
    }
}

impl vstd::std_specs::convert::FromSpecImpl<u64> for Decimal {
    open spec fn obeys_from_spec() -> bool {
        true
    }

    open spec fn from_spec(val: u64) -> Decimal {
        decimal_of(val as nat * wad())
    }
}

impl From<u128> for Decimal {
    fn from(val: u128) -> (r: Decimal) {
        let r = Decimal::from_u128(val);
        proof {
            lemma_decimal_of(0, r);
        }
        r
    }
}

impl vstd::std_specs::convert::FromSpecImpl<u128> for Decimal {
    open spec fn obeys_from_spec() -> bool {
        true
    }

    open spec fn from_spec(val: u128) -> Decimal {
        decimal_of(val as nat * wad())
    }
}

impl Default for Decimal {
    /// Zero.
    fn default() -> (r: Decimal)
        ensures
            r == Decimal::spec_zero(),
    {
        Decimal::zero()
    }
}

} // verus!
