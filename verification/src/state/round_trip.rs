//! What a deposit that is redeemed at once returns.

use crate::math::common::wad;
use crate::math::decimal::{lemma_scaled_constants, lemma_scaled_results, Decimal};
use crate::state::reserve::Reserve;
use vstd::arithmetic::div_mod::{lemma_div_by_multiple, lemma_fundamental_div_mod, lemma_mod_bound};
use vstd::prelude::*;

verus! {

/// Between which multiples of the divisor a dividend lies.
proof fn lemma_floor(a: int, b: int)
    requires
        b > 0,
    ensures
        (a / b) * b <= a < (a / b) * b + b,
{
    lemma_fundamental_div_mod(a, b);
    lemma_mod_bound(a, b);
    assert(b * (a / b) == (a / b) * b) by (nonlinear_arith);
}

/// The collateral minted for `liquidity` at the exchange rate of a reserve
/// with `minted` collateral and a scaled supply of `supply`.
pub open spec fn collateral_for(minted: nat, supply: nat, liquidity: nat) -> nat {
    liquidity * (minted * wad() * wad() / supply) / wad()
}

/// The liquidity paid out for `collateral` at the exchange rate of a
/// reserve with `minted` collateral and a scaled supply of `supply`.
pub open spec fn liquidity_for(minted: nat, supply: nat, collateral: nat) -> nat {
    collateral * wad() * wad() / (minted * wad() * wad() / supply) / wad()
}

/// What is paid out when the collateral minted for a deposit is redeemed at once.
pub open spec fn round_trip(minted: nat, supply: nat, liquidity: nat) -> nat {
    let collateral = collateral_for(minted, supply, liquidity);
    liquidity_for(minted + collateral, supply + liquidity * wad(), collateral)
}

/// A deposit that is redeemed at once returns the deposit, or one unit less.
///
/// This holds where the exchange rate is at least one, that is where a unit
/// of collateral is worth a unit of liquidity at most, and for deposits
/// below ten to the eighteenth units. The numbers are the collateral in
/// existence, the scaled supply of the reserve, and the deposit.
pub proof fn lemma_round_trip(minted: nat, supply: nat, liquidity: nat)
    requires
        minted > 0,
        supply > 0,
        minted * wad() * wad() / supply >= wad(),
        liquidity < wad(),
    ensures
        liquidity - 1 <= round_trip(minted, supply, liquidity) <= liquidity,
        collateral_for(minted, supply, liquidity) >= liquidity,
        (minted + collateral_for(minted, supply, liquidity)) * wad() * wad() / (supply + liquidity
            * wad()) >= wad(),
{
    let m = minted as int;
    let t = supply as int;
    let l = liquidity as int;
    let a = m * wad() * wad();
    let rate = a / t;
    let c = l * rate / (wad() as int);
    let m2 = m + c;
    let t2 = t + l * wad();
    let a2 = m2 * wad() * wad();
    let rate2 = a2 / t2;
    lemma_floor(a, t);
    lemma_floor(l * rate, wad() as int);
    lemma_floor(a2, t2);
    assert(l * rate >= 0) by (nonlinear_arith)
        requires
            l >= 0,
            rate >= 0,
    ;
    assert(c >= 0);
    // a unit of collateral is worth a unit of liquidity at most, before and after
    assert(rate * t >= wad() * t) by (nonlinear_arith)
        requires
            rate >= wad(),
            t >= 0,
    ;
    assert(m * wad() >= t);
    assert(l * rate >= l * wad()) by (nonlinear_arith)
        requires
            rate >= wad(),
            l >= 0,
    ;
    assert(c >= l);
    assert(m2 * wad() >= t2);
    assert(rate2 >= wad()) by {
        assert((rate2 + 1) * t2 == rate2 * t2 + t2) by (nonlinear_arith);
        assert(rate2 + 1 > wad()) by (nonlinear_arith)
            requires
                (rate2 + 1) * t2 > wad() * t2,
                t2 > 0,
        ;
    }
    let x = c * wad() * wad() / rate2;
    lemma_floor(c * wad() * wad(), rate2);
    lemma_floor(x, wad() as int);
    let back = x / (wad() as int);
    assert(round_trip(minted, supply, liquidity) == back);
    // the collateral minted is worth the deposit at most
    assert(c * t <= l * m * wad()) by {
        assert((c * wad()) * t <= (l * rate) * t) by (nonlinear_arith)
            requires
                c * wad() <= l * rate,
                t >= 0,
        ;
        assert(l * (rate * t) <= l * a) by (nonlinear_arith)
            requires
                rate * t <= a,
                l >= 0,
        ;
        assert((l * rate) * t == l * (rate * t)) by (nonlinear_arith);
        assert((c * wad()) * t == (c * t) * wad()) by (nonlinear_arith);
        assert(l * a == ((l * m) * wad()) * wad()) by (nonlinear_arith)
            requires
                a == m * wad() * wad(),
        ;
        assert((c * t) * wad() <= ((l * m) * wad()) * wad());
        assert(c * t <= (l * m) * wad()) by (nonlinear_arith)
            requires
                (c * t) * wad() <= ((l * m) * wad()) * wad(),
                wad() > 0,
        ;
    }
    // the exchange rate does not rise by the deposit
    assert(rate2 <= rate) by {
        if rate2 >= rate + 1 {
            assert(rate2 * t2 >= (rate + 1) * t2) by (nonlinear_arith)
                requires
                    rate2 >= rate + 1,
                    t2 >= 0,
            ;
            assert((rate + 1) * t2 == rate * t + t + (rate + 1) * l * wad()) by (nonlinear_arith)
                requires
                    t2 == t + l * wad(),
            ;
            assert((rate + 1) * l * wad() < c * wad() * wad());
            assert((rate + 1) * l == l * rate + l) by (nonlinear_arith);
            assert(false);
        }
    }
    // no more than a unit is lost
    if l > 0 {
        assert(x >= (l - 1) * wad()) by {
            if x < (l - 1) * wad() {
                assert((x + 1) * rate2 <= ((l - 1) * wad()) * rate) by (nonlinear_arith)
                    requires
                        x + 1 <= (l - 1) * wad(),
                        0 <= rate2 <= rate,
                        x >= 0,
                ;
                assert((x + 1) * rate2 == x * rate2 + rate2) by (nonlinear_arith);
                assert(((l - 1) * wad()) * rate == (l * rate) * wad() - wad() * rate) by (nonlinear_arith);
                assert(wad() * rate >= wad() * wad()) by (nonlinear_arith)
                    requires
                        rate >= wad(),
                        wad() > 0,
                ;
                assert(false);
            }
        }
    }
    // and nothing is gained
    assert(x < (l + 1) * wad()) by {
        if x >= (l + 1) * wad() {
            assert(x * rate2 >= ((l + 1) * wad()) * rate2) by (nonlinear_arith)
                requires
                    x >= (l + 1) * wad(),
                    rate2 >= 0,
            ;
            assert(((l + 1) * wad()) * rate2 == ((l + 1) * rate2) * wad()) by (nonlinear_arith);
            assert((l + 1) * rate2 <= c * wad());
            assert(((l + 1) * rate2) * t2 <= (c * wad()) * t2) by (nonlinear_arith)
                requires
                    (l + 1) * rate2 <= c * wad(),
                    t2 >= 0,
            ;
            assert(((l + 1) * rate2) * t2 == (l + 1) * (rate2 * t2)) by (nonlinear_arith);
            assert((l + 1) * (rate2 * t2) > (l + 1) * (a2 - t2)) by (nonlinear_arith)
                requires
                    rate2 * t2 > a2 - t2,
                    l + 1 > 0,
            ;
            assert((l + 1) * (a2 - t2) == l * a2 + a2 - (l + 1) * t2) by (nonlinear_arith);
            assert(l * a2 == ((l * m) * wad()) * wad() + ((l * c) * wad()) * wad())
                by (nonlinear_arith)
                requires
                    a2 == (m + c) * wad() * wad(),
            ;
            assert((c * wad()) * t2 == (c * t) * wad() + ((l * c) * wad()) * wad()) by (nonlinear_arith)
                requires
                    t2 == t + l * wad(),
            ;
            assert((l + 1) * t2 <= wad() * t2) by (nonlinear_arith)
                requires
                    l + 1 <= wad(),
                    t2 >= 0,
            ;
            assert(false);
        }
    }
}

/// The exchange rate of a reserve with collateral and supply, as a scaled value.
proof fn lemma_exchange_rate(reserve: Reserve)
    requires
        reserve.collateral.mint_total_supply > 0,
        reserve.liquidity.supply() > 0,
        reserve.spec_collateral_exchange_rate() is Ok,
    ensures
        reserve.spec_collateral_exchange_rate()->Ok_0.0@ == (
        reserve.collateral.mint_total_supply as nat) * wad() * wad() / (
        reserve.liquidity.supply() as nat),
        reserve.liquidity.spec_total_supply() is Ok,
        reserve.liquidity.spec_total_supply()->Ok_0@ == reserve.liquidity.supply(),
{
    let liquidity = reserve.liquidity;
    let available = Decimal::spec_from_int(liquidity.available_amount as nat);
    lemma_scaled_constants(liquidity.available_amount as u128, 0);
    lemma_scaled_results(available, liquidity.borrowed_amount_wads, 0);
    let gross = available.spec_try_add(liquidity.borrowed_amount_wads)->Ok_0;
    lemma_scaled_results(gross, liquidity.accumulated_protocol_fees_wads, 0);
    let total = liquidity.spec_total_supply()->Ok_0;
    let minted = Decimal::spec_from_int(reserve.collateral.mint_total_supply as nat);
    lemma_scaled_constants(reserve.collateral.mint_total_supply as u128, 0);
    lemma_scaled_results(minted, total, 0);
}

/// A deposit into a reserve that is redeemed at once returns the deposit,
/// or one unit less, and leaves as much collateral as there was.
///
/// The reserve must have collateral and supply. The law is stated for the
/// reserves in which a unit of collateral is worth a unit of liquidity at
/// most, and for deposits below ten to the eighteenth units: without either
/// bound more can be lost to rounding, as for a deposit that is worth less
/// than one unit of collateral.
pub proof fn lemma_deposit_then_redeem(reserve: Reserve, liquidity_amount: u64)
    requires
        reserve.collateral.mint_total_supply > 0,
        reserve.liquidity.supply() > 0,
        reserve.spec_deposit_liquidity(liquidity_amount) is Ok,
        reserve.spec_deposit_liquidity(liquidity_amount)->Ok_0.0.spec_redeem_collateral(
            reserve.spec_deposit_liquidity(liquidity_amount)->Ok_0.1,
        ) is Ok,
        reserve.spec_collateral_exchange_rate()->Ok_0.0@ >= wad(),
        liquidity_amount < wad(),
    ensures
        ({
            let (deposited, collateral_amount) = reserve.spec_deposit_liquidity(
                liquidity_amount,
            )->Ok_0;
            let (redeemed, returned) = deposited.spec_redeem_collateral(collateral_amount)->Ok_0;
            &&& liquidity_amount - 1 <= returned <= liquidity_amount
            &&& redeemed.collateral == reserve.collateral
            &&& redeemed.liquidity.available_amount == reserve.liquidity.available_amount
                + liquidity_amount - returned
            &&& redeemed.liquidity.supply() == reserve.liquidity.supply() + (liquidity_amount
                - returned) * wad()
        }),
{
    let minted = reserve.collateral.mint_total_supply as nat;
    let supply = reserve.liquidity.supply() as nat;
    let (deposited, collateral_amount) = reserve.spec_deposit_liquidity(liquidity_amount)->Ok_0;
    let (redeemed, returned) = deposited.spec_redeem_collateral(collateral_amount)->Ok_0;
    lemma_exchange_rate(reserve);
    lemma_round_trip(minted, supply, liquidity_amount as nat);
    // the collateral minted
    let rate = reserve.spec_collateral_exchange_rate()->Ok_0;
    let deposit = Decimal::spec_from_int(liquidity_amount as nat);
    lemma_scaled_constants(liquidity_amount as u128, 0);
    lemma_scaled_results(deposit, rate.0, 0);
    let deposited_units = liquidity_amount as nat;
    assert(deposited_units * wad() * rate.0@ / wad() == deposited_units * rate.0@) by {
        lemma_div_by_multiple((deposited_units * rate.0@) as int, wad() as int);
        assert(deposited_units * wad() * rate.0@ == (deposited_units * rate.0@) * wad())
            by (nonlinear_arith);
    }
    assert(collateral_amount == collateral_for(minted, supply, liquidity_amount as nat));
    // the reserve after the deposit
    assert(deposited.collateral.mint_total_supply == minted + collateral_amount);
    assert(deposited.liquidity.supply() == supply + liquidity_amount * wad());
    lemma_exchange_rate(deposited);
    // the liquidity paid out
    let rate_after = deposited.spec_collateral_exchange_rate()->Ok_0;
    let collateral = Decimal::spec_from_int(collateral_amount as nat);
    lemma_scaled_constants(collateral_amount as u128, 0);
    lemma_scaled_results(collateral, rate_after.0, 0);
    assert(returned == round_trip(minted, supply, liquidity_amount as nat));
}

} // verus!
