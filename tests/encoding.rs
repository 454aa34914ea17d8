use pumpfun_amm::address::{derive_pool, Address};
use pumpfun_amm::amm::{create_pool, CreatePool};
use pumpfun_amm::ids::{pump_fun_launchpad_program, pumpfun_amm_program, token_program};
use pumpfun_amm::instruction::AccountMeta;
use pumpfun_amm::launchpad::{self, create_token, CreateToken};
use pumpfun_amm::pumpfun_cpi::{buy, Buy};

fn key(n: u8) -> Address {
    Address { bytes: [n; 32] }
}

fn flags(m: &AccountMeta) -> (bool, bool) {
    (m.is_signer, m.is_writable)
}

#[test]
fn buy_has_twenty_one_accounts_in_order() {
    let keys: Vec<Address> = (0..21u8).map(|i| key(i + 1)).collect();
    for (base_amount_out, max_quote_amount_in) in [(0u64, 0u64), (9_764, 10_000), (u64::MAX, 1)] {
        let ix = buy(
            &keys[0], &keys[1], &keys[2], &keys[3], &keys[4], &keys[5], &keys[6], &keys[7],
            &keys[8], &keys[9], &keys[10], &keys[11], &keys[12], &keys[13], &keys[14], &keys[15],
            &keys[16], &keys[17], &keys[18], &keys[19], &keys[20],
            Buy { base_amount_out, max_quote_amount_in },
        )
        .unwrap();
        assert_eq!(ix.accounts.len(), 21);
        for (i, m) in ix.accounts.iter().enumerate() {
            assert_eq!(m.pubkey, keys[i]);
        }
        let writable = [1usize, 5, 6, 7, 8, 10, 17, 19, 20];
        for (i, m) in ix.accounts.iter().enumerate() {
            assert_eq!(flags(m), (i == 1, writable.contains(&i)), "account {}", i);
        }
        assert_eq!(ix.program_id, keys[16]);
        let mut expected = vec![102u8, 6, 61, 18, 1, 218, 235, 234];
        expected.extend_from_slice(&base_amount_out.to_le_bytes());
        expected.extend_from_slice(&max_quote_amount_in.to_le_bytes());
        assert_eq!(ix.data, expected);
    }
}

#[test]
fn create_token_layout() {
    let payer = key(1);
    let mint = key(2);
    let ix = create_token(
        &payer,
        &mint,
        CreateToken {
            name: "Test token".to_owned(),
            symbol: "TTS".to_owned(),
            uri: "".to_owned(),
            creater: key(3),
        },
    )
    .unwrap();
    assert_eq!(ix.accounts.len(), 14);
    assert_eq!(ix.program_id, pump_fun_launchpad_program());
    assert_eq!(ix.accounts[0].pubkey, mint);
    assert_eq!(flags(&ix.accounts[0]), (true, true));
    assert_eq!(ix.accounts[7].pubkey, payer);
    assert_eq!(flags(&ix.accounts[7]), (true, true));
    assert_eq!(ix.accounts[9].pubkey, token_program());
    assert_eq!(ix.accounts[13].pubkey, pump_fun_launchpad_program());
    let signers = ix.accounts.iter().filter(|m| m.is_signer).count();
    assert_eq!(signers, 2);
    let mut expected = vec![24u8, 30, 200, 40, 5, 28, 7, 119];
    expected.extend_from_slice(&10u32.to_le_bytes());
    expected.extend_from_slice(b"Test token");
    expected.extend_from_slice(&3u32.to_le_bytes());
    expected.extend_from_slice(b"TTS");
    expected.extend_from_slice(&0u32.to_le_bytes());
    expected.extend_from_slice(&[3u8; 32]);
    assert_eq!(ix.data, expected);
}

#[test]
fn launchpad_buy_layout() {
    let ix = launchpad::buy(&key(1), &key(2), &key(3), &key(4), launchpad::Buy { amount: 5, max_sol_cost: 7 })
        .unwrap();
    assert_eq!(ix.accounts.len(), 14);
    assert_eq!(ix.program_id, pump_fun_launchpad_program());
    assert_eq!(ix.accounts[2].pubkey, key(3));
    assert_eq!(flags(&ix.accounts[2]), (false, false));
    assert_eq!(ix.accounts[5].pubkey, key(2));
    assert_eq!(ix.accounts[6].pubkey, key(1));
    assert_eq!(flags(&ix.accounts[6]), (true, true));
    let mut expected = vec![102u8, 6, 61, 18, 1, 218, 235, 234];
    expected.extend_from_slice(&5u64.to_le_bytes());
    expected.extend_from_slice(&7u64.to_le_bytes());
    assert_eq!(ix.data, expected);
}

#[test]
fn create_pool_layout() {
    let creator = key(1);
    let base = key(2);
    let quote = key(3);
    let ix = create_pool(
        &creator,
        &base,
        &quote,
        &key(4),
        &key(5),
        CreatePool { index: 258, base_amount_in: 1_000, quote_amount_in: 2_000, coin_creator: key(6) },
    )
    .unwrap();
    assert_eq!(ix.accounts.len(), 18);
    assert_eq!(ix.program_id, pumpfun_amm_program());
    let (pool, _) = derive_pool(258, &creator, &base, &quote).unwrap();
    assert_eq!(ix.accounts[0].pubkey, pool);
    assert_eq!(flags(&ix.accounts[0]), (false, true));
    assert_eq!(ix.accounts[2].pubkey, creator);
    assert_eq!(flags(&ix.accounts[2]), (true, true));
    assert_eq!(ix.accounts[13].pubkey, token_program());
    assert_eq!(ix.accounts[14].pubkey, token_program());
    assert_eq!(ix.accounts[17].pubkey, pumpfun_amm_program());
    let mut expected = vec![233u8, 146, 209, 142, 207, 104, 64, 188, 2, 1];
    expected.extend_from_slice(&1_000u64.to_le_bytes());
    expected.extend_from_slice(&2_000u64.to_le_bytes());
    expected.extend_from_slice(&[6u8; 32]);
    assert_eq!(ix.data, expected);
}
