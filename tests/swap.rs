use pumpfun_amm::address::Address;
use pumpfun_amm::entrypoint::{execute_swap, process_instruction, read_pool, AccountInput};
use pumpfun_amm::error::{Error, ProgramError};
use pumpfun_amm::pricing::PoolData;
use pumpfun_amm::state::{decode_global_config, decode_pool};
use pumpfun_amm::{BuyInstruction, Instructions, SwapPerformed};

fn key(n: u8) -> Address {
    Address { bytes: [n; 32] }
}

fn pool_bytes() -> Vec<u8> {
    let mut d = vec![0xAAu8; 8];
    d.push(254);
    d.extend_from_slice(&258u16.to_le_bytes());
    for k in 1..=6u8 {
        d.extend_from_slice(&[k; 32]);
    }
    d.extend_from_slice(&77u64.to_le_bytes());
    d.extend_from_slice(&[9u8; 32]);
    d
}

fn config_bytes(lp: u64, protocol: u64, creator: u64) -> Vec<u8> {
    let mut d = vec![0xBBu8; 8];
    d.extend_from_slice(&[20u8; 32]);
    d.extend_from_slice(&lp.to_le_bytes());
    d.extend_from_slice(&protocol.to_le_bytes());
    d.push(3);
    for k in 0..8u8 {
        d.extend_from_slice(&[30 + k; 32]);
    }
    d.extend_from_slice(&creator.to_le_bytes());
    d.extend_from_slice(&[40u8; 32]);
    d
}

fn accounts(reserve_base: u64, reserve_quote: u64, signer: bool) -> Vec<AccountInput> {
    (0..21u8)
        .map(|i| AccountInput {
            key: key(100 + i),
            is_signer: i == 1 && signer,
            lamports: match i {
                7 => reserve_base,
                8 => reserve_quote,
                _ => 0,
            },
            data: match i {
                0 => pool_bytes(),
                2 => config_bytes(30, 5, 5),
                _ => vec![],
            },
        })
        .collect()
}

#[test]
fn pool_decodes_field_by_field() {
    let d = pool_bytes();
    assert_eq!(d.len(), 243);
    let p = decode_pool(&d).unwrap();
    assert_eq!(p.pool_bump, 254);
    assert_eq!(p.index, 258);
    assert_eq!(p.creator, key(1));
    assert_eq!(p.base_mint, key(2));
    assert_eq!(p.quote_mint, key(3));
    assert_eq!(p.lp_mint, key(4));
    assert_eq!(p.pool_base_token_account, key(5));
    assert_eq!(p.pool_quote_token_account, key(6));
    assert_eq!(p.lp_supply, 77);
    assert_eq!(p.coin_creator, key(9));
}

#[test]
fn config_decodes_field_by_field() {
    let d = config_bytes(30, 5, 7);
    assert_eq!(d.len(), 353);
    let c = decode_global_config(&d).unwrap();
    assert_eq!(c.admin, key(20));
    assert_eq!(c.lp_fee_basis_points, 30);
    assert_eq!(c.protocol_fee_basis_points, 5);
    assert_eq!(c.disable_flags, 3);
    for k in 0..8u8 {
        assert_eq!(c.protocol_fee_recipients[k as usize], key(30 + k));
    }
    assert_eq!(c.coin_creator_fee_basis_points, 7);
    assert_eq!(c.admin_set_coin_creator_authority, key(40));
}

#[test]
fn longer_data_decodes_its_prefix() {
    let mut d = pool_bytes();
    d.extend_from_slice(&[1, 2, 3]);
    assert_eq!(decode_pool(&d).unwrap().lp_supply, 77);
}

#[test]
fn short_data_is_rejected() {
    let short = vec![0u8; 242];
    assert!(matches!(decode_pool(&short), Err(Error::ProgramError(ProgramError::InvalidArgument))));
    assert!(matches!(decode_pool(&[]), Err(Error::ProgramError(ProgramError::InvalidArgument))));
    let short = vec![0u8; 352];
    assert!(matches!(
        decode_global_config(&short),
        Err(Error::ProgramError(ProgramError::InvalidArgument))
    ));
    assert!(matches!(
        PoolData::new(&pool_bytes(), &short, 1, 1),
        Err(Error::ProgramError(ProgramError::InvalidArgument))
    ));
}

#[test]
fn read_pool_takes_four_accounts() {
    let a = accounts(1_000_000, 1_000_000, true);
    let four = vec![a[0].clone(), a[2].clone(), a[7].clone(), a[8].clone()];
    let d = read_pool(&four).unwrap();
    assert_eq!(d.reserve_base, 1_000_000);
    assert_eq!(d.reserve_quote, 1_000_000);
    assert_eq!(d.global_config.lp_fee_basis_points, 30);
    assert!(matches!(
        read_pool(&four[..3]),
        Err(Error::ProgramError(ProgramError::NotEnoughAccountKeys))
    ));
}

#[test]
fn swap_prices_and_builds_buy() {
    let a = accounts(1_000_000, 1_000_000, true);
    let (ix, performed) = execute_swap(&a, BuyInstruction::new(10_000, 100)).unwrap();
    assert_eq!(performed, SwapPerformed { input_amount: 10_000, output_amount: 9_763 });
    assert_eq!(ix.accounts.len(), 21);
    assert_eq!(ix.program_id, key(116));
    for (i, m) in ix.accounts.iter().enumerate() {
        assert_eq!(m.pubkey, key(100 + i as u8));
    }
    let mut expected = vec![102u8, 6, 61, 18, 1, 218, 235, 234];
    expected.extend_from_slice(&9_763u64.to_le_bytes());
    expected.extend_from_slice(&10_000u64.to_le_bytes());
    assert_eq!(ix.data, expected);
}

#[test]
fn swap_checks_come_in_order() {
    let a = accounts(1_000_000, 1_000_000, true);
    assert!(matches!(
        execute_swap(&a[..20], BuyInstruction::new(10_000, 100)),
        Err(Error::ProgramError(ProgramError::NotEnoughAccountKeys))
    ));
    let unsigned = accounts(1_000_000, 1_000_000, false);
    assert!(matches!(
        execute_swap(&unsigned, BuyInstruction::new(10_000, 10_000)),
        Err(Error::ProgramError(ProgramError::MissingRequiredSignature))
    ));
    let mut bad = accounts(1_000_000, 1_000_000, true);
    bad[0].data.truncate(100);
    assert!(matches!(execute_swap(&bad, BuyInstruction::new(10_000, 10_000)), Err(Error::SlippageTooHigh)));
    assert!(matches!(
        execute_swap(&bad, BuyInstruction::new(10_000, 100)),
        Err(Error::ProgramError(ProgramError::InvalidArgument))
    ));
    let empty = accounts(1_000_000, 0, true);
    assert!(matches!(
        execute_swap(&empty, BuyInstruction::new(0, 100)),
        Err(Error::ProgramError(ProgramError::ArithmeticOverflow))
    ));
}

#[test]
fn instruction_round_trip() {
    let i = Instructions::ExecuteSwap(BuyInstruction::new(5_000_000, 10_000));
    let bytes = i.to_bytes();
    let mut expected = vec![0u8];
    expected.extend_from_slice(&5_000_000u64.to_le_bytes());
    expected.extend_from_slice(&10_000u64.to_le_bytes());
    assert_eq!(bytes, expected);
    assert_eq!(Instructions::try_from_slice(&bytes), Ok(i));
    assert_eq!(Instructions::try_from_slice(&bytes[..16]), Err(ProgramError::BorshIoError));
    let mut wrong = bytes.clone();
    wrong[0] = 1;
    assert_eq!(Instructions::try_from_slice(&wrong), Err(ProgramError::BorshIoError));
}

#[test]
fn test_huge_slippage_swap() {
    let a = accounts(1_000_000, 1_000_000, true);
    assert!(a.len() == 21, "{}", a.len());
    let instruction = Instructions::ExecuteSwap(BuyInstruction::new(5_000_000, 10_000));
    let data = instruction.to_bytes();
    assert!(process_instruction(&a, &data).is_err(), "expected transaction to fail");
    assert!(matches!(process_instruction(&a, &data), Err(ProgramError::InvalidArgument)));
}
