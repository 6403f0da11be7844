//! Sliding-window limit on outflow.
//!
//! Time is cut into windows of `window_duration` slots that start at the
//! multiples of it. The limiter keeps the outflow of the current window and
//! of the one before, and takes the outflow of the last `window_duration`
//! slots to be the current window's plus a share of the previous window's
//! that shrinks linearly as the current window goes by.

use crate::error::ErrorCode;
use crate::math::common::wad;
use crate::math::decimal::{lemma_scaled_constants, lemma_scaled_results, Decimal};
use vstd::arithmetic::div_mod::{lemma_fundamental_div_mod, lemma_mod_multiples_basic};
use vstd::prelude::*;

verus! {

/// Parameters of a rate limiter.
#[derive(Clone, Copy, Debug, Default, PartialEq, Eq, Structural)]
pub struct RateLimiterConfig {
    /// Length of a window in slots; zero switches the limiter off.
    pub window_duration: u64,
    /// Greatest outflow admitted within a window.
    pub max_outflow: u128,
}

/// The state of a rate limiter.
#[derive(Clone, Copy, Debug, PartialEq, Eq, Structural)]
pub struct RateLimiter {
    /// Parameters.
    pub config: RateLimiterConfig,
    /// Outflow of the window before the current one.
    pub prev_qty: Decimal,
    /// First slot of the current window.
    pub window_start: u64,
    /// Outflow of the current window so far.
    pub cur_qty: Decimal,
}

/// The first slot of the window of length `window_duration` that holds `slot`.
pub open spec fn window_floor(slot: u64, window_duration: u64) -> u64 {
    if window_duration == 0 {
        slot
    } else {
        (slot - slot % window_duration) as u64
    }
}

proof fn lemma_window_floor(slot: u64, window_duration: u64)
    requires
        window_duration > 0,
    ensures
        (slot / window_duration) * window_duration == window_floor(slot, window_duration),
        window_floor(slot, window_duration) <= slot,
        slot < window_floor(slot, window_duration) + window_duration,
        window_floor(slot, window_duration) % window_duration == 0,
{
    lemma_fundamental_div_mod(slot as int, window_duration as int);
    assert(window_duration * (slot / window_duration) == (slot / window_duration) * window_duration)
        by (nonlinear_arith);
    lemma_mod_multiples_basic((slot / window_duration) as int, window_duration as int);
}

impl RateLimiter {
    /// The current window starts at a multiple of the window's length.
    pub open spec fn wf(&self) -> bool {
        self.config.window_duration > 0 ==> self.window_start % self.config.window_duration == 0
    }

    /// What [`RateLimiter::new`] returns.
    pub open spec fn spec_new(config: RateLimiterConfig, cur_slot: u64) -> RateLimiter {
        RateLimiter {
            config,
            prev_qty: Decimal::spec_zero(),
            window_start: window_floor(cur_slot, config.window_duration),
            cur_qty: Decimal::spec_zero(),
        }
    }

    /// A limiter with nothing recorded, whose current window holds `cur_slot`.
    pub fn new(config: RateLimiterConfig, cur_slot: u64) -> (r: RateLimiter)
        ensures
            r == Self::spec_new(config, cur_slot),
            r.wf(),
    {
        let slot_start: u64 = if config.window_duration != 0 {
            proof {
                lemma_window_floor(cur_slot, config.window_duration);
            }
            cur_slot / config.window_duration * config.window_duration
        } else {
            cur_slot
        };
        RateLimiter {
            config,
            prev_qty: Decimal::zero(),
            window_start: slot_start,
            cur_qty: Decimal::zero(),
        }
    }

    /// The limiter once its windows are moved on to the one that holds `cur_slot`.
    ///
    /// The limiter must be switched on.
    pub open spec fn spec_window_update(self, cur_slot: u64) -> Result<RateLimiter, ErrorCode> {
        let start = window_floor(cur_slot, self.config.window_duration);
        if cur_slot < self.window_start {
            Err(ErrorCode::SlotLessThanWindowStart)
        } else if start < self.window_start + self.config.window_duration {
            Ok(self)
        } else if start == self.window_start + self.config.window_duration {
            Ok(
                RateLimiter {
                    prev_qty: self.cur_qty,
                    window_start: start,
                    cur_qty: Decimal::spec_zero(),
                    ..self
                },
            )
        } else {
            Ok(
                RateLimiter {
                    prev_qty: Decimal::spec_zero(),
                    window_start: start,
                    cur_qty: Decimal::spec_zero(),
                    ..self
                },
            )
        }
    }

    /// Moves the windows on to the one that holds `cur_slot`.
    fn _update(&mut self, cur_slot: u64) -> (r: Result<(), ErrorCode>)
        requires
            old(self).config.window_duration > 0,
        ensures
            match r {
                Ok(()) => old(self).spec_window_update(cur_slot) == Ok::<RateLimiter, ErrorCode>(
                    *final(self),
                ),
                Err(e) => old(self).spec_window_update(cur_slot) == Err::<RateLimiter, ErrorCode>(e)
                    && *final(self) == *old(self),
            },
    {
        if cur_slot < self.window_start {
            return Err(ErrorCode::SlotLessThanWindowStart);
        }
        proof {
            lemma_window_floor(cur_slot, self.config.window_duration);
        }
        let cur_slot_start: u64 = cur_slot / self.config.window_duration
            * self.config.window_duration;
        match self.window_start.checked_add(self.config.window_duration) {
            Some(next_start) => {
                if cur_slot_start == next_start {
                    self.prev_qty = self.cur_qty;
                    self.window_start = cur_slot_start;
                    self.cur_qty = Decimal::zero();
                } else if cur_slot_start > next_start {
                    self.prev_qty = Decimal::zero();
                    self.window_start = cur_slot_start;
                    self.cur_qty = Decimal::zero();
                }
            },
            None => {},
        }
        Ok(())
    }

    /// The outflow taken to lie in the last window's length of slots before
    /// `cur_slot`, for a limiter whose current window holds `cur_slot`.
    pub open spec fn spec_current_outflow(self, cur_slot: u64) -> Result<Decimal, ErrorCode> {
        if self.config.window_duration == 0 {
            Err(ErrorCode::InvalidAccountInput)
        } else if cur_slot < self.window_start || cur_slot - self.window_start + 1 > u64::MAX {
            Err(ErrorCode::MathOverflow)
        } else {
            let elapsed = (cur_slot - self.window_start + 1) as u64;
            match Decimal::spec_from_int(self.config.window_duration as nat).spec_try_sub(
                Decimal::spec_from_int(elapsed as nat),
            ) {
                Err(e) => Err(e),
                Ok(left) => match left.spec_try_div_u64(self.config.window_duration) {
                    Err(e) => Err(e),
                    Ok(prev_weight) => match prev_weight.spec_try_mul(self.prev_qty) {
                        Err(e) => Err(e),
                        Ok(weighted) => weighted.spec_try_add(self.cur_qty),
                    },
                },
            }
        }
    }

    /// The outflow taken to lie in the last window's length of slots.
    fn current_outflow(&self, cur_slot: u64) -> (r: Result<Decimal, ErrorCode>)
        ensures
            r == self.spec_current_outflow(cur_slot),
    {
        if self.config.window_duration == 0 {
            return Err(ErrorCode::InvalidAccountInput);
        }
        let since_start: u64 = match cur_slot.checked_sub(self.window_start) {
            Some(d) => d,
            None => { return Err(ErrorCode::MathOverflow); },
        };
        let elapsed: u64 = match since_start.checked_add(1) {
            Some(d) => d,
            None => { return Err(ErrorCode::MathOverflow); },
        };
        // the previous window's outflow is taken to be spread evenly over it
        let left = Decimal::from_u64(self.config.window_duration).try_sub(
            Decimal::from_u64(elapsed),
        )?;
        let prev_weight = left.try_div_u64(self.config.window_duration)?;
        prev_weight.try_mul(self.prev_qty)?.try_add(self.cur_qty)
    }

    /// What [`RateLimiter::remaining_outflow`] returns, with the limiter it leaves.
    pub open spec fn spec_remaining_outflow(self, cur_slot: u64) -> Result<
        (RateLimiter, Decimal),
        ErrorCode,
    > {
        if self.config.window_duration == 0 {
            Ok((self, Decimal::spec_from_int(u64::MAX as nat)))
        } else {
            match self.spec_window_update(cur_slot) {
                Err(e) => Err(e),
                Ok(rolled) => match rolled.spec_current_outflow(cur_slot) {
                    Err(e) => Err(e),
                    Ok(outflow) => {
                        let max_outflow = Decimal::spec_from_int(self.config.max_outflow as nat);
                        if outflow@ > max_outflow@ {
                            Ok((rolled, Decimal::spec_zero()))
                        } else {
                            match max_outflow.spec_try_sub(outflow) {
                                Err(e) => Err(e),
                                Ok(left) => Ok((rolled, left)),
                            }
                        }
                    },
                },
            }
        }
    }

    /// The outflow still admitted at `cur_slot`; moves the windows on.
    ///
    /// A limiter that is switched off admits the greatest 64-bit amount.
    pub fn remaining_outflow(&mut self, cur_slot: u64) -> (r: Result<Decimal, ErrorCode>)
        ensures
            match r {
                Ok(left) => old(self).spec_remaining_outflow(cur_slot) == Ok::<
                    (RateLimiter, Decimal),
                    ErrorCode,
                >((*final(self), left)),
                Err(e) => old(self).spec_remaining_outflow(cur_slot) == Err::<
                    (RateLimiter, Decimal),
                    ErrorCode,
                >(e) && *final(self) == *old(self),
            },
            old(self).wf() ==> final(self).wf(),
            final(self).window_start >= old(self).window_start,
    {
        if self.config.window_duration == 0 {
            return Ok(Decimal::from_u64(u64::MAX));
        }
        proof {
            lemma_window_floor(cur_slot, self.config.window_duration);
        }
        let mut rolled = *self;
        rolled._update(cur_slot)?;
        let cur_outflow = rolled.current_outflow(cur_slot)?;
        let max_outflow = Decimal::from_u128(self.config.max_outflow);
        if cur_outflow.gt(&max_outflow) {
            *self = rolled;
            return Ok(Decimal::zero());
        }
        let left = max_outflow.try_sub(cur_outflow)?;
        *self = rolled;
        Ok(left)
    }

    /// The limiter that [`RateLimiter::update`] leaves.
    pub open spec fn spec_update(self, cur_slot: u64, qty: Decimal) -> Result<
        RateLimiter,
        ErrorCode,
    > {
        if self.config.window_duration == 0 {
            Ok(self)
        } else {
            match self.spec_window_update(cur_slot) {
                Err(e) => Err(e),
                Ok(rolled) => match rolled.spec_current_outflow(cur_slot) {
                    Err(e) => Err(e),
                    Ok(outflow) => match outflow.spec_try_add(qty) {
                        Err(e) => Err(e),
                        Ok(total) => if total@ > Decimal::spec_from_int(
                            self.config.max_outflow as nat,
                        )@ {
                            Err(ErrorCode::RateLimitReached)
                        } else {
                            match rolled.cur_qty.spec_try_add(qty) {
                                Err(e) => Err(e),
                                Ok(cur_qty) => Ok(RateLimiter { cur_qty, ..rolled }),
                            }
                        },
                    },
                },
            }
        }
    }

    /// Records an outflow of `qty` at `cur_slot`, unless the limit would be exceeded.
    ///
    /// A limiter that is switched off records nothing and admits everything.
    pub fn update(&mut self, cur_slot: u64, qty: Decimal) -> (r: Result<(), ErrorCode>)
        ensures
            match r {
                Ok(()) => old(self).spec_update(cur_slot, qty) == Ok::<RateLimiter, ErrorCode>(
                    *final(self),
                ),
                Err(e) => old(self).spec_update(cur_slot, qty) == Err::<RateLimiter, ErrorCode>(e)
                    && *final(self) == *old(self),
            },
            old(self).wf() ==> final(self).wf(),
            final(self).window_start >= old(self).window_start,
    {
        if self.config.window_duration == 0 {
            return Ok(());
        }
        proof {
            lemma_window_floor(cur_slot, self.config.window_duration);
        }
        let mut rolled = *self;
        rolled._update(cur_slot)?;
        let cur_outflow = rolled.current_outflow(cur_slot)?;
        let total = cur_outflow.try_add(qty)?;
        if total.gt(&Decimal::from_u128(self.config.max_outflow)) {
            return Err(ErrorCode::RateLimitReached);
        }
        rolled.cur_qty = rolled.cur_qty.try_add(qty)?;
        *self = rolled;
        Ok(())
    }
}

impl Default for RateLimiter {
    /// A limiter with windows of one slot that admits the greatest 64-bit amount.
    fn default() -> (r: RateLimiter)
        ensures
            r == RateLimiter::spec_new(
                RateLimiterConfig { window_duration: 1, max_outflow: u64::MAX as u128 },
                1,
            ),
    {
        RateLimiter::new(RateLimiterConfig { window_duration: 1, max_outflow: u64::MAX as u128 }, 1)
    }
}

/// One outflow handed to [`RateLimiter::update`]: the slot and the quantity.
pub struct Outflow {
    /// Slot at which the outflow takes place.
    pub slot: u64,
    /// Quantity that flows out.
    pub qty: Decimal,
}

/// The limiter after the outflows were recorded in order, where each of them was admitted.
pub open spec fn after_updates(limiter: RateLimiter, outflows: Seq<Outflow>) -> Option<RateLimiter>
    decreases outflows.len(),
{
    if outflows.len() == 0 {
        Some(limiter)
    } else {
        match after_updates(limiter, outflows.drop_last()) {
            None => None,
            Some(before) => match before.spec_update(outflows.last().slot, outflows.last().qty) {
                Ok(after) => Some(after),
                Err(_) => None,
            },
        }
    }
}

/// The scaled sum of the outflows whose slots lie in the `length` slots from `from` on.
pub open spec fn outflow_within(outflows: Seq<Outflow>, from: int, length: int) -> nat
    decreases outflows.len(),
{
    if outflows.len() == 0 {
        0
    } else {
        outflow_within(outflows.drop_last(), from, length) + (if from <= outflows.last().slot < from
            + length {
            outflows.last().qty@
        } else {
            0
        })
    }
}

/// Two different multiples of `d` lie at least `d` apart.
proof fn lemma_multiples_apart(a: int, b: int, d: int)
    requires
        d > 0,
        a % d == 0,
        b % d == 0,
        a < b,
    ensures
        a + d <= b,
{
    lemma_fundamental_div_mod(a, d);
    lemma_fundamental_div_mod(b, d);
    assert(a + d <= b) by (nonlinear_arith)
        requires
            d > 0,
            a == d * (a / d),
            b == d * (b / d),
            a < b,
    ;
}

/// What holds of a limiter and the outflows it has admitted since it was well formed.
spec fn admitted(limiter: RateLimiter, config: RateLimiterConfig, outflows: Seq<Outflow>) -> bool {
    let length = config.window_duration as int;
    let most = config.max_outflow * wad();
    &&& limiter.config == config
    &&& limiter.wf()
    &&& forall|a: int| a % length == 0 ==> #[trigger] outflow_within(outflows, a, length) <= most
    &&& outflow_within(outflows, limiter.window_start as int, length) <= limiter.cur_qty@
    &&& forall|j: int|
        0 <= j < outflows.len() ==> (#[trigger] outflows[j]).slot < limiter.window_start + length
}

/// No outflow lies in the `length` slots from `from` on if all of them lie before `from`.
proof fn lemma_nothing_within(outflows: Seq<Outflow>, from: int, length: int)
    requires
        forall|j: int| 0 <= j < outflows.len() ==> (#[trigger] outflows[j]).slot < from,
    ensures
        outflow_within(outflows, from, length) == 0,
    decreases outflows.len(),
{
    if outflows.len() > 0 {
        assert(outflows.last() == outflows[outflows.len() - 1]);
        assert forall|j: int| 0 <= j < outflows.drop_last().len() implies (
        #[trigger] outflows.drop_last()[j]).slot < from by {
            assert(outflows.drop_last()[j] == outflows[j]);
        }
        lemma_nothing_within(outflows.drop_last(), from, length);
    }
}

/// How an admitted outflow changes a limiter.
spec fn admits(before: RateLimiter, after: RateLimiter, slot: u64, qty: Decimal) -> bool {
    let length = before.config.window_duration;
    &&& after.config == before.config
    &&& after.window_start % length == 0
    &&& after.window_start <= slot < after.window_start + length
    &&& after.cur_qty@ <= before.config.max_outflow * wad()
    &&& if after.window_start == before.window_start {
        after.cur_qty@ == before.cur_qty@ + qty@
    } else {
        after.cur_qty@ == qty@ && before.window_start + length <= after.window_start
    }
}

/// Where the windows of a well-formed limiter stand once they were moved on.
proof fn lemma_window_update(before: RateLimiter, rolled: RateLimiter, slot: u64)
    requires
        before.config.window_duration > 0,
        before.wf(),
        before.spec_window_update(slot) == Ok::<RateLimiter, ErrorCode>(rolled),
    ensures
        rolled.config == before.config,
        rolled.window_start % before.config.window_duration == 0,
        rolled.window_start <= slot < rolled.window_start + before.config.window_duration,
        if rolled.window_start == before.window_start {
            rolled.cur_qty == before.cur_qty
        } else {
            rolled.cur_qty@ == 0 && before.window_start + before.config.window_duration
                <= rolled.window_start
        },
{
    let length = before.config.window_duration;
    lemma_window_floor(slot, length);
    lemma_scaled_constants(0, 0);
    let start = window_floor(slot, length);
    if start < before.window_start + length {
        if start < before.window_start {
            lemma_multiples_apart(start as int, before.window_start as int, length as int);
        } else if start > before.window_start {
            lemma_multiples_apart(before.window_start as int, start as int, length as int);
        }
    }
}

/// The outflow counted is at least the outflow of the current window.
proof fn lemma_current_outflow(limiter: RateLimiter, slot: u64, outflow: Decimal)
    requires
        limiter.spec_current_outflow(slot) == Ok::<Decimal, ErrorCode>(outflow),
    ensures
        outflow@ >= limiter.cur_qty@,
{
    let length = limiter.config.window_duration;
    let elapsed = (slot - limiter.window_start + 1) as u64;
    let whole = Decimal::spec_from_int(length as nat);
    let left = whole.spec_try_sub(Decimal::spec_from_int(elapsed as nat))->Ok_0;
    let prev_weight = left.spec_try_div_u64(length)->Ok_0;
    let weighted = prev_weight.spec_try_mul(limiter.prev_qty)->Ok_0;
    assert(weighted.spec_try_add(limiter.cur_qty) == Ok::<Decimal, ErrorCode>(outflow));
    lemma_scaled_results(weighted, limiter.cur_qty, 0);
}

/// An outflow that [`RateLimiter::spec_update`] admits changes the limiter as [`admits`] says.
proof fn lemma_update_admits(before: RateLimiter, after: RateLimiter, slot: u64, qty: Decimal)
    requires
        before.config.window_duration > 0,
        before.wf(),
        before.spec_update(slot, qty) == Ok::<RateLimiter, ErrorCode>(after),
    ensures
        admits(before, after, slot, qty),
{
    let rolled = before.spec_window_update(slot)->Ok_0;
    let outflow = rolled.spec_current_outflow(slot)->Ok_0;
    let total = outflow.spec_try_add(qty)->Ok_0;
    assert(before.spec_window_update(slot) == Ok::<RateLimiter, ErrorCode>(rolled));
    assert(rolled.spec_current_outflow(slot) == Ok::<Decimal, ErrorCode>(outflow));
    assert(outflow.spec_try_add(qty) == Ok::<Decimal, ErrorCode>(total));
    assert(total@ <= Decimal::spec_from_int(before.config.max_outflow as nat)@);
    assert(rolled.cur_qty.spec_try_add(qty) == Ok::<Decimal, ErrorCode>(after.cur_qty));
    assert(after == RateLimiter { cur_qty: after.cur_qty, ..rolled });
    lemma_window_update(before, rolled, slot);
    lemma_current_outflow(rolled, slot, outflow);
    lemma_scaled_constants(before.config.max_outflow, 0);
    lemma_scaled_results(outflow, qty, 0);
    lemma_scaled_results(rolled.cur_qty, qty, 0);
}

/// One more admitted outflow keeps [`admitted`].
proof fn lemma_admitted_step(
    before: RateLimiter,
    after: RateLimiter,
    config: RateLimiterConfig,
    outflows: Seq<Outflow>,
)
    requires
        outflows.len() > 0,
        config.window_duration > 0,
        admitted(before, config, outflows.drop_last()),
        admits(before, after, outflows.last().slot, outflows.last().qty),
    ensures
        admitted(after, config, outflows),
{
    let length = config.window_duration as int;
    let most = config.max_outflow * wad();
    let slot = outflows.last().slot;
    let qty = outflows.last().qty;
    let earlier = outflows.drop_last();
    let start = after.window_start as int;
    if after.window_start != before.window_start {
        assert forall|j: int| 0 <= j < earlier.len() implies (#[trigger] earlier[j]).slot
            < start by {}
        lemma_nothing_within(earlier, start, length);
    }
    assert(outflow_within(outflows, start, length) == outflow_within(earlier, start, length)
        + qty@);
    assert(outflow_within(outflows, start, length) <= most);
    assert forall|a: int| a % length == 0 implies #[trigger] outflow_within(outflows, a, length)
        <= most by {
        if a < start {
            lemma_multiples_apart(a, start, length);
            assert(outflow_within(outflows, a, length) == outflow_within(earlier, a, length));
        } else if a > start {
            lemma_multiples_apart(start, a, length);
            assert(outflow_within(outflows, a, length) == outflow_within(earlier, a, length));
        }
    }
    assert forall|j: int| 0 <= j < outflows.len() implies (#[trigger] outflows[j]).slot < start
        + length by {
        if j < outflows.len() - 1 {
            assert(outflows[j] == earlier[j]);
        }
    }
}

/// A limiter that has admitted a sequence of outflows is [`admitted`] for it.
proof fn lemma_admitted(
    limiter: RateLimiter,
    config: RateLimiterConfig,
    outflows: Seq<Outflow>,
)
    requires
        config.window_duration > 0,
        limiter.config == config,
        limiter.wf(),
        after_updates(limiter, outflows) is Some,
    ensures
        admitted(after_updates(limiter, outflows)->Some_0, config, outflows),
    decreases outflows.len(),
{
    if outflows.len() == 0 {
        assert forall|a: int| #[trigger] outflow_within(outflows, a, config.window_duration as int)
            == 0 by {}
    } else {
        lemma_admitted(limiter, config, outflows.drop_last());
        lemma_update_admits(
            after_updates(limiter, outflows.drop_last())->Some_0,
            after_updates(limiter, outflows)->Some_0,
            outflows.last().slot,
            outflows.last().qty,
        );
        lemma_admitted_step(
            after_updates(limiter, outflows.drop_last())->Some_0,
            after_updates(limiter, outflows)->Some_0,
            config,
            outflows,
        );
    }
}

/// The outflow within any `length` slots is at most that of the two windows the slots lie in.
proof fn lemma_within_two_windows(outflows: Seq<Outflow>, from: int, length: int)
    requires
        length > 0,
    ensures
        outflow_within(outflows, from, length) <= outflow_within(
            outflows,
            from - from % length,
            length,
        ) + outflow_within(outflows, from - from % length + length, length),
    decreases outflows.len(),
{
    if outflows.len() > 0 {
        lemma_within_two_windows(outflows.drop_last(), from, length);
        assert(0 <= from % length < length);
    }
}

/// The bound a rate limiter keeps.
///
/// Of the outflows that a well-formed limiter admits one after the other,
/// those whose slots lie within any `window_duration` slots sum to at most
/// twice `max_outflow`. The quantities are scaled values, so the bound is
/// scaled too.
pub proof fn lemma_rate_limiter_bound(limiter: RateLimiter, outflows: Seq<Outflow>, from: int)
    requires
        limiter.wf(),
        limiter.config.window_duration > 0,
        after_updates(limiter, outflows) is Some,
    ensures
        outflow_within(outflows, from, limiter.config.window_duration as int) <= 2
            * limiter.config.max_outflow * wad(),
{
    let length = limiter.config.window_duration as int;
    lemma_admitted(limiter, limiter.config, outflows);
    lemma_within_two_windows(outflows, from, length);
    let first = from - from % length;
    assert(first % length == 0 && (first + length) % length == 0) by {
        lemma_fundamental_div_mod(from, length);
        assert(first == length * (from / length));
        assert(first + length == length * (from / length + 1)) by (nonlinear_arith)
            requires
                first == length * (from / length),
        ;
        vstd::arithmetic::div_mod::lemma_mod_multiples_basic(from / length, length);
        vstd::arithmetic::div_mod::lemma_mod_multiples_basic(from / length + 1, length);
        assert(length * (from / length) == (from / length) * length) by (nonlinear_arith);
        assert(length * (from / length + 1) == (from / length + 1) * length)
            by (nonlinear_arith);
    }
    let done = after_updates(limiter, outflows)->Some_0;
    assert(admitted(done, limiter.config, outflows));
    assert(outflow_within(outflows, first, length) <= limiter.config.max_outflow * wad());
    assert(outflow_within(outflows, first + length, length) <= limiter.config.max_outflow
        * wad());
}

} // verus!
