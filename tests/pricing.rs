use pumpfun_amm::address::Address;
use pumpfun_amm::error::{Error, ProgramError};
use pumpfun_amm::pricing::{apply_slippage, PoolData};
use pumpfun_amm::state::{Pool, PoolGlobalConfig};

fn key(n: u8) -> Address {
    Address { bytes: [n; 32] }
}

fn config(lp: u64, protocol: u64, creator: u64) -> PoolGlobalConfig {
    PoolGlobalConfig {
        admin: key(1),
        lp_fee_basis_points: lp,
        protocol_fee_basis_points: protocol,
        disable_flags: 0,
        protocol_fee_recipients: [key(2); 8],
        coin_creator_fee_basis_points: creator,
        admin_set_coin_creator_authority: key(3),
    }
}

fn pool() -> Pool {
    Pool {
        pool_bump: 255,
        index: 0,
        creator: key(4),
        base_mint: key(5),
        quote_mint: key(6),
        lp_mint: key(7),
        pool_base_token_account: key(8),
        pool_quote_token_account: key(9),
        lp_supply: 0,
        coin_creator: key(10),
    }
}

fn data(reserve_base: u64, reserve_quote: u64, lp: u64, protocol: u64, creator: u64) -> PoolData {
    PoolData {
        reserve_base,
        reserve_quote,
        global_config: config(lp, protocol, creator),
        pool: pool(),
    }
}

#[test]
fn scenario_forty_bps_quote() {
    let d = data(1_000_000, 1_000_000, 30, 5, 5);
    assert_eq!(d.apply_fees(10_000), Ok(9_960));
    assert_eq!(d.base_out(10_000), Ok(9_861));
}

#[test]
fn zero_input_gives_zero_output() {
    let d = data(1_000_000, 1_000_000, 30, 5, 5);
    assert_eq!(d.base_out(0), Ok(0));
    let d = data(7, 3, 0, 0, 0);
    assert_eq!(d.base_out(0), Ok(0));
}

#[test]
fn output_grows_with_input() {
    let d = data(1_000_000, 1_000_000, 30, 5, 5);
    let mut last = 0;
    for x in [1u64, 10, 100, 1_000, 10_000, 100_000, 1_000_000, 10_000_000] {
        let out = d.base_out(x).unwrap();
        assert!(out >= last);
        last = out;
    }
    assert!(last < 1_000_000);
}

#[test]
fn output_shrinks_with_fees() {
    let low = data(1_000_000, 1_000_000, 0, 0, 0);
    let mid = data(1_000_000, 1_000_000, 30, 5, 5);
    let high = data(1_000_000, 1_000_000, 5_000, 0, 0);
    let a = low.base_out(10_000).unwrap();
    let b = mid.base_out(10_000).unwrap();
    let c = high.base_out(10_000).unwrap();
    assert_eq!(a, 9_900);
    assert!(a >= b && b >= c);
    assert_eq!(c, 4_975);
}

#[test]
fn full_fee_leaves_nothing() {
    let d = data(1_000_000, 1_000_000, 10_000, 0, 0);
    assert_eq!(d.apply_fees(12_345), Ok(0));
    assert_eq!(d.base_out(12_345), Ok(0));
}

#[test]
fn fee_total_overflow_is_rejected() {
    let d = data(1_000_000, 1_000_000, u64::MAX, 1, 0);
    assert_eq!(d.apply_fees(10), Err(ProgramError::ArithmeticOverflow));
    assert_eq!(d.base_out(10), Err(ProgramError::ArithmeticOverflow));
    let d = data(1_000_000, 1_000_000, 1, 1, u64::MAX);
    assert_eq!(d.base_out(10), Err(ProgramError::ArithmeticOverflow));
}

#[test]
fn fee_above_amount_is_rejected() {
    let d = data(1_000_000, 1_000_000, 20_000, 0, 0);
    assert_eq!(d.apply_fees(0), Ok(0));
    assert_eq!(d.apply_fees(1), Err(ProgramError::ArithmeticOverflow));
    assert_eq!(d.apply_fees(10_000), Err(ProgramError::ArithmeticOverflow));
    assert_eq!(d.base_out(10_000), Err(ProgramError::ArithmeticOverflow));
}

#[test]
fn empty_pool_with_zero_input_is_rejected() {
    let d = data(1_000_000, 0, 30, 5, 5);
    assert_eq!(d.base_out(0), Err(ProgramError::ArithmeticOverflow));
    assert_eq!(d.base_out(10_000), Ok(1_000_000));
}

#[test]
fn largest_values_do_not_overflow() {
    let d = data(u64::MAX, u64::MAX, 0, 0, 0);
    assert_eq!(d.base_out(u64::MAX), Ok(u64::MAX / 2));
    assert_eq!(apply_slippage(u64::MAX, 9_999), Ok(u64::MAX - (u64::MAX as u128 * 9_999 / 10_000) as u64));
}

#[test]
fn zero_slippage_keeps_output() {
    assert_eq!(apply_slippage(9_862, 0), Ok(9_862));
    assert_eq!(apply_slippage(0, 0), Ok(0));
}

#[test]
fn slippage_takes_floor_of_share() {
    assert_eq!(apply_slippage(9_862, 100), Ok(9_764));
    assert_eq!(apply_slippage(9_862, 500), Ok(9_369));
    assert_eq!(apply_slippage(9_862, 9_999), Ok(1));
}

#[test]
fn more_slippage_never_raises_minimum() {
    let mut last = u64::MAX;
    for bps in [0u64, 1, 50, 100, 1_000, 5_000, 9_999] {
        let m = apply_slippage(123_456_789, bps).unwrap();
        assert!(m <= last);
        last = m;
    }
}

#[test]
fn full_slippage_is_rejected() {
    assert_eq!(apply_slippage(0, 10_000), Err(Error::SlippageTooHigh));
    assert_eq!(apply_slippage(9_862, 10_000), Err(Error::SlippageTooHigh));
    assert_eq!(apply_slippage(u64::MAX, u64::MAX), Err(Error::SlippageTooHigh));
}

#[test]
fn error_codes() {
    assert_eq!(Error::SlippageTooHigh.into_program_error(), ProgramError::InvalidArgument);
    assert_eq!(
        Error::InsufficientPoolReserve.into_program_error(),
        ProgramError::InvalidInstructionData
    );
    assert_eq!(
        Error::ProgramError(ProgramError::ArithmeticOverflow).into_program_error(),
        ProgramError::ArithmeticOverflow
    );
    assert_eq!(
        Error::SlippageTooHigh.message(),
        "slippage must be within 0 to 100 percent in basis points"
    );
}
