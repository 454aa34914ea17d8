//! The pricing engine: fee deduction, constant-product output and slippage,
//! with the laws they obey.

use crate::error::{Error, ProgramError};
use crate::state::{
    decode_global_config, decode_pool, global_config_encoded_by, pool_encoded_by, Pool,
    PoolGlobalConfig, GLOBAL_CONFIG_ACCOUNT_LEN, POOL_ACCOUNT_LEN,
};
use vstd::arithmetic::div_mod::{lemma_div_is_ordered, lemma_fundamental_div_mod};
use vstd::prelude::*;

verus! {

/// One hundred percent, in basis points.
pub const BPS_DENOMINATOR: u64 = 10000;

/// A fresh view of a pool: its records and the live balances of its two
/// reserve accounts.
#[derive(Clone, Copy, Debug)]
pub struct PoolData {
    pub reserve_base: u64,
    pub reserve_quote: u64,
    pub global_config: PoolGlobalConfig,
    pub pool: Pool,
}

/// The three fees of a configuration, summed.
pub open spec fn total_fee_bps(c: PoolGlobalConfig) -> int {
    c.lp_fee_basis_points + c.protocol_fee_basis_points + c.coin_creator_fee_basis_points
}

/// The fee taken from `amount` at `fee_bps` basis points, rounded down.
pub open spec fn fee_of(amount: int, fee_bps: int) -> int {
    amount * fee_bps / 10000
}

/// What is left of `amount` after the fee; `None` where the fee total does
/// not fit 64 bits or the fee exceeds the amount.
pub open spec fn effective_input(amount: int, fee_bps: int) -> Option<int> {
    if fee_bps > u64::MAX {
        None
    } else if fee_of(amount, fee_bps) > amount {
        None
    } else {
        Some(amount - fee_of(amount, fee_bps))
    }
}

/// Constant-product output for an effective input `q`, rounded down.
pub open spec fn product_out(reserve_base: int, reserve_quote: int, q: int) -> int {
    reserve_base * q / (reserve_quote + q)
}

/// The base amount that `quote_in` buys from reserves `reserve_base` and
/// `reserve_quote` at a fee total of `fee_bps`, before slippage; `None` where
/// a step overflows or the denominator is zero.
pub open spec fn swap_out(reserve_base: int, reserve_quote: int, fee_bps: int, quote_in: int) -> Option<
    int,
> {
    match effective_input(quote_in, fee_bps) {
        None => None,
        Some(q) => if reserve_quote + q == 0 {
            None
        } else {
            Some(product_out(reserve_base, reserve_quote, q))
        },
    }
}

/// The base amount that `quote_in` buys from the pool before slippage.
pub open spec fn quote_out(d: PoolData, quote_in: int) -> Option<int> {
    swap_out(d.reserve_base as int, d.reserve_quote as int, total_fee_bps(d.global_config), quote_in)
}

/// The least output accepted at `slippage_bps` below `amount`.
pub open spec fn min_out(amount: int, slippage_bps: int) -> int {
    amount - amount * slippage_bps / 10000
}

/// Floor division bounds.
proof fn lemma_floor(a: int, b: int)
    requires
        0 <= a,
        0 < b,
    ensures
        0 <= a / b,
        (a / b) * b <= a,
        a < (a / b) * b + b,
{
    lemma_fundamental_div_mod(a, b);
    assert(0 <= a % b < b);
    assert((a / b) * b == b * (a / b)) by (nonlinear_arith);
    assert(0 <= a / b) by (nonlinear_arith)
        requires
            a == b * (a / b) + a % b,
            0 <= a % b < b,
            0 <= a,
            0 < b,
    ;
}

/// `a / b <= c / d` whenever `a * d <= c * b`.
proof fn lemma_div_cross(a: int, b: int, c: int, d: int)
    requires
        0 <= a,
        0 < b,
        0 <= c,
        0 < d,
        a * d <= c * b,
    ensures
        a / b <= c / d,
{
    lemma_floor(a, b);
    lemma_floor(c, d);
    let q = a / b;
    let p = c / d;
    assert(q * b * d <= a * d) by (nonlinear_arith)
        requires
            q * b <= a,
            0 < d,
    ;
    assert(q * d * b <= c * b) by (nonlinear_arith)
        requires
            q * b * d <= a * d,
            a * d <= c * b,
    ;
    assert(q * d <= c) by (nonlinear_arith)
        requires
            q * d * b <= c * b,
            0 < b,
    ;
    assert(q * d < (p + 1) * d) by (nonlinear_arith)
        requires
            q * d <= c,
            c < p * d + d,
    ;
    assert(q < p + 1) by (nonlinear_arith)
        requires
            q * d < (p + 1) * d,
            0 < d,
    ;
}

/// The fee never exceeds the amount while the fee total is at most 100%.
proof fn lemma_fee_bounded(amount: int, fee_bps: int)
    requires
        0 <= amount,
        0 <= fee_bps <= 10000,
    ensures
        0 <= fee_of(amount, fee_bps) <= amount,
{
    assert(amount * fee_bps <= amount * 10000) by (nonlinear_arith)
        requires
            0 <= amount,
            fee_bps <= 10000,
    ;
    assert(0 <= amount * fee_bps) by (nonlinear_arith)
        requires
            0 <= amount,
            0 <= fee_bps,
    ;
    lemma_div_is_ordered(amount * fee_bps, amount * 10000, 10000);
    assert(amount * 10000 / 10000 == amount);
    lemma_floor(amount * fee_bps, 10000);
}

/// The output never exceeds the base reserve.
proof fn lemma_product_bounded(reserve_base: int, reserve_quote: int, q: int)
    requires
        0 <= reserve_base,
        0 <= reserve_quote,
        0 <= q,
        0 < reserve_quote + q,
    ensures
        0 <= product_out(reserve_base, reserve_quote, q) <= reserve_base,
{
    assert(reserve_base * q * 1 <= reserve_base * (reserve_quote + q)) by (nonlinear_arith)
        requires
            0 <= reserve_base,
            0 <= reserve_quote,
    ;
    assert(0 <= reserve_base * q) by (nonlinear_arith)
        requires
            0 <= reserve_base,
            0 <= q,
    ;
    lemma_div_cross(reserve_base * q, reserve_quote + q, reserve_base, 1);
    lemma_floor(reserve_base * q, reserve_quote + q);
}

/// The effective input never decreases as the amount grows.
proof fn lemma_effective_monotonic(x1: int, x2: int, t: int)
    requires
        0 <= x1 <= x2,
        0 <= t,
        fee_of(x1, t) <= x1,
        fee_of(x2, t) <= x2,
    ensures
        x1 - fee_of(x1, t) <= x2 - fee_of(x2, t),
{
    assert(0 <= x1 * t) by (nonlinear_arith)
        requires
            0 <= x1,
            0 <= t,
    ;
    assert(x1 * t <= x2 * t) by (nonlinear_arith)
        requires
            x1 <= x2,
            0 <= t,
    ;
    lemma_floor(x1 * t, 10000);
    lemma_floor(x2 * t, 10000);
    let f1 = fee_of(x1, t);
    let f2 = fee_of(x2, t);
    if t <= 10000 {
        assert((f2 - f1) * 10000 < (x2 - x1) * 10000 + 10000) by (nonlinear_arith)
            requires
                f2 * 10000 <= x2 * t,
                x1 * t < f1 * 10000 + 10000,
                x1 <= x2,
                t <= 10000,
        ;
        assert(f2 - f1 < x2 - x1 + 1) by (nonlinear_arith)
            requires
                (f2 - f1) * 10000 < (x2 - x1) * 10000 + 10000,
        ;
    } else {
        assert(x1 * 10000 <= x1 * t) by (nonlinear_arith)
            requires
                0 <= x1,
                10000 < t,
        ;
        lemma_div_is_ordered(x1 * 10000, x1 * t, 10000);
        assert(x1 * 10000 / 10000 == x1);
    }
}

/// The effective input never grows as the fee total grows.
proof fn lemma_effective_fee_monotonic(x: int, t1: int, t2: int)
    requires
        0 <= x,
        0 <= t1 <= t2,
    ensures
        fee_of(x, t1) <= fee_of(x, t2),
{
    assert(x * t1 <= x * t2) by (nonlinear_arith)
        requires
            0 <= x,
            t1 <= t2,
    ;
    lemma_div_is_ordered(x * t1, x * t2, 10000);
}

/// The constant-product output never decreases as the effective input grows.
proof fn lemma_product_monotonic(reserve_base: int, reserve_quote: int, q1: int, q2: int)
    requires
        0 <= reserve_base,
        0 <= reserve_quote,
        0 <= q1 <= q2,
        0 < reserve_quote + q1,
    ensures
        product_out(reserve_base, reserve_quote, q1) <= product_out(reserve_base, reserve_quote, q2),
{
    assert(reserve_base * q1 * (reserve_quote + q2) <= reserve_base * q2 * (reserve_quote + q1))
        by (nonlinear_arith)
        requires
            0 <= reserve_base,
            0 <= reserve_quote,
            0 <= q1 <= q2,
    ;
    assert(0 <= reserve_base * q1) by (nonlinear_arith)
        requires
            0 <= reserve_base,
            0 <= q1,
    ;
    assert(0 <= reserve_base * q2) by (nonlinear_arith)
        requires
            0 <= reserve_base,
            0 <= q2,
    ;
    lemma_div_cross(reserve_base * q1, reserve_quote + q1, reserve_base * q2, reserve_quote + q2);
}

/// A zero input yields a zero output from every pool whose fee total fits
/// 64 bits and whose quote reserve is not empty.
pub proof fn lemma_zero_input_zero_output(d: PoolData)
    requires
        total_fee_bps(d.global_config) <= u64::MAX,
        d.reserve_quote > 0,
    ensures
        quote_out(d, 0) == Some(0int),
{
    let t = total_fee_bps(d.global_config);
    assert(0 * t == 0);
    assert(d.reserve_base * 0 == 0);
}

/// For fixed reserves and fees, a larger input never yields a smaller output.
pub proof fn lemma_quote_monotonic_in_input(d: PoolData, x1: int, x2: int)
    requires
        0 <= x1 <= x2,
        quote_out(d, x1) is Some,
        quote_out(d, x2) is Some,
    ensures
        quote_out(d, x1).unwrap() <= quote_out(d, x2).unwrap(),
{
    let t = total_fee_bps(d.global_config);
    lemma_effective_monotonic(x1, x2, t);
    lemma_product_monotonic(
        d.reserve_base as int,
        d.reserve_quote as int,
        x1 - fee_of(x1, t),
        x2 - fee_of(x2, t),
    );
}

/// For a fixed input and fixed reserves, a larger fee total never yields a
/// larger output.
pub proof fn lemma_quote_antitone_in_fees(d1: PoolData, d2: PoolData, x: int)
    requires
        0 <= x,
        d1.reserve_base == d2.reserve_base,
        d1.reserve_quote == d2.reserve_quote,
        total_fee_bps(d1.global_config) <= total_fee_bps(d2.global_config),
        quote_out(d1, x) is Some,
        quote_out(d2, x) is Some,
    ensures
        quote_out(d2, x).unwrap() <= quote_out(d1, x).unwrap(),
{
    let t1 = total_fee_bps(d1.global_config);
    let t2 = total_fee_bps(d2.global_config);
    lemma_effective_fee_monotonic(x, t1, t2);
    lemma_product_monotonic(
        d1.reserve_base as int,
        d1.reserve_quote as int,
        x - fee_of(x, t2),
        x - fee_of(x, t1),
    );
}

/// No slippage leaves the amount as it is.
pub proof fn lemma_slippage_zero(amount: int)
    ensures
        min_out(amount, 0) == amount,
{
    assert(amount * 0 == 0);
}

/// A larger slippage never yields a larger minimum output.
pub proof fn lemma_slippage_antitone(amount: int, bps1: int, bps2: int)
    requires
        0 <= amount,
        0 <= bps1 <= bps2,
    ensures
        min_out(amount, bps2) <= min_out(amount, bps1),
{
    lemma_effective_fee_monotonic(amount, bps1, bps2);
}

impl PoolData {
    /// Decodes a pool and its global configuration and combines them with
    /// the balances of the pool's two reserve accounts. The pool is decoded
    /// first; data shorter than its layout is rejected.
    pub fn new(pool: &[u8], global_config: &[u8], reserve_base: u64, reserve_quote: u64) -> (r:
        Result<PoolData, Error>)
        ensures
            r is Ok <==> (pool@.len() >= POOL_ACCOUNT_LEN && global_config@.len()
                >= GLOBAL_CONFIG_ACCOUNT_LEN),
            r is Err ==> r == Err::<PoolData, Error>(Error::ProgramError(ProgramError::InvalidArgument)),
            r matches Ok(d) ==> {
                &&& pool_encoded_by(d.pool, pool@.subrange(8, 243))
                &&& global_config_encoded_by(d.global_config, global_config@.subrange(8, 353))
                &&& d.reserve_base == reserve_base
                &&& d.reserve_quote == reserve_quote
            },
    {
        let pool = decode_pool(pool)?;
        let global_config = decode_global_config(global_config)?;
        Ok(PoolData { reserve_base, reserve_quote, global_config, pool })
    }

    /// The base amount that `quote_amount_in` buys, before slippage.
    pub fn base_out(&self, quote_amount_in: u64) -> (r: Result<u64, ProgramError>)
        ensures
            match quote_out(*self, quote_amount_in as int) {
                Some(o) => r == Ok::<u64, ProgramError>(o as u64) && o <= u64::MAX,
                None => r == Err::<u64, ProgramError>(ProgramError::ArithmeticOverflow),
            },
    {
        let quote = self.apply_fees(quote_amount_in)?;
        assert((self.reserve_base as u128) * (quote as u128) <= u128::MAX) by (nonlinear_arith)
            requires
                self.reserve_base <= u64::MAX,
                quote <= u64::MAX,
        ;
        let num: u128 = (self.reserve_base as u128) * (quote as u128);
        let denom: u128 = (self.reserve_quote as u128) + (quote as u128);
        if denom == 0 {
            return Err(ProgramError::ArithmeticOverflow);
        }
        let base_out = num / denom;
        proof {
            lemma_product_bounded(self.reserve_base as int, self.reserve_quote as int, quote as int);
        }
        if base_out > u64::MAX as u128 {
            return Err(ProgramError::ArithmeticOverflow);
        }
        Ok(base_out as u64)
    }

    /// What is left of `amount` after the pool's three fees.
    pub fn apply_fees(&self, amount: u64) -> (r: Result<u64, ProgramError>)
        ensures
            match effective_input(amount as int, total_fee_bps(self.global_config)) {
                Some(q) => r == Ok::<u64, ProgramError>(q as u64) && q <= amount,
                None => r == Err::<u64, ProgramError>(ProgramError::ArithmeticOverflow),
            },
    {
        let c = &self.global_config;
        let total_fee_bp = match c.lp_fee_basis_points.checked_add(c.protocol_fee_basis_points) {
            Some(x) => match x.checked_add(c.coin_creator_fee_basis_points) {
                Some(y) => y,
                None => return Err(ProgramError::ArithmeticOverflow),
            },
            None => return Err(ProgramError::ArithmeticOverflow),
        };
        assert((amount as u128) * (total_fee_bp as u128) <= u128::MAX) by (nonlinear_arith)
            requires
                amount <= u64::MAX,
                total_fee_bp <= u64::MAX,
        ;
        let product: u128 = (amount as u128) * (total_fee_bp as u128);
        let fee_amount = product / 10000;
        assert(fee_amount == fee_of(amount as int, total_fee_bp as int));
        if fee_amount > amount as u128 {
            return Err(ProgramError::ArithmeticOverflow);
        }
        Ok(amount - fee_amount as u64)
    }
}

/// Takes `slippage_bps` basis points off `amount`, rounding the deduction
/// down. A slippage of 100% or more is rejected before any arithmetic.
pub fn apply_slippage(amount: u64, slippage_bps: u64) -> (r: Result<u64, Error>)
    ensures
        slippage_bps >= 10000 ==> r == Err::<u64, Error>(Error::SlippageTooHigh),
        slippage_bps < 10000 ==> r == Ok::<u64, Error>(min_out(amount as int, slippage_bps as int) as u64),
        slippage_bps < 10000 ==> 0 <= min_out(amount as int, slippage_bps as int) <= amount,
{
    if slippage_bps >= BPS_DENOMINATOR {
        return Err(Error::SlippageTooHigh);
    }
    proof {
        lemma_fee_bounded(amount as int, slippage_bps as int);
    }
    assert((amount as u128) * (slippage_bps as u128) <= u128::MAX) by (nonlinear_arith)
        requires
            amount <= u64::MAX,
            slippage_bps <= u64::MAX,
    ;
    let slippage = ((amount as u128) * (slippage_bps as u128)) / 10000;
    Ok(amount - slippage as u64)
}

} // verus!
