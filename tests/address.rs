use pumpfun_amm::address::{
    derive_address, derive_amm_user_volume_accumulator, derive_associated_bounding_curve,
    derive_bounding_curve, derive_coin_creator_vault_authority, derive_creator_vault,
    derive_event_authority, derive_global_config, derive_global_volume_accumulator,
    derive_metadata, derive_pool, derive_pool_ata, derive_pool_mint, derive_user_lp_ata,
    derive_user_volume_accumulator, Address,
};
use pumpfun_amm::ids;
use solana_program::pubkey::Pubkey;

fn key(n: u8) -> Address {
    Address { bytes: [n; 32] }
}

fn pk(a: &Address) -> Pubkey {
    Pubkey::new_from_array(a.bytes)
}

fn expect(seeds: &[&[u8]], program: &Pubkey, got: Option<(Address, u8)>) {
    let (k, b) = Pubkey::find_program_address(seeds, program);
    let (a, bump) = got.unwrap();
    assert_eq!(a.bytes, k.to_bytes());
    assert_eq!(bump, b);
}

#[test]
fn derivation_is_deterministic() {
    let first = derive_pool(0, &key(1), &key(2), &key(3));
    let second = derive_pool(0, &key(1), &key(2), &key(3));
    assert_eq!(first, second);
    assert!(first.is_some());
    assert_ne!(derive_pool(1, &key(1), &key(2), &key(3)), first);
}

#[test]
fn derivation_matches_the_runtime() {
    let launchpad = pk(&ids::pump_fun_launchpad_program());
    let amm = pk(&ids::pumpfun_amm_program());
    let ata = spl_associated_token_account::id();
    let metadata = pk(&ids::metadata_program());
    let mint = key(7);
    let user = key(8);
    expect(&[b"global_volume_accumulator"], &launchpad, derive_global_volume_accumulator());
    expect(&[b"__event_authority"], &launchpad, derive_event_authority());
    expect(&[b"global_config"], &amm, derive_global_config());
    expect(&[b"bonding-curve", &mint.bytes], &launchpad, derive_bounding_curve(&mint));
    let (curve, _) = derive_bounding_curve(&mint).unwrap();
    expect(
        &[&curve.bytes, spl_token::id().as_ref(), &mint.bytes],
        &ata,
        derive_associated_bounding_curve(&curve, &mint),
    );
    expect(&[b"metadata", metadata.as_ref(), &mint.bytes], &metadata, derive_metadata(&mint));
    expect(&[b"creator-vault", &user.bytes], &launchpad, derive_creator_vault(&user));
    expect(&[b"creator_vault", &user.bytes], &amm, derive_coin_creator_vault_authority(&user));
    expect(&[b"user_volume_accumulator", &user.bytes], &launchpad, derive_user_volume_accumulator(&user));
    expect(&[b"user_volume_accumulator", &user.bytes], &amm, derive_amm_user_volume_accumulator(&user));
    expect(
        &[b"pool", &300u16.to_be_bytes(), &user.bytes, &mint.bytes, &key(9).bytes],
        &amm,
        derive_pool(300, &user, &mint, &key(9)),
    );
    expect(&[b"pool_lp_mint", &user.bytes], &amm, derive_pool_mint(&user));
    expect(
        &[&user.bytes, spl_token_2022::id().as_ref(), &mint.bytes],
        &ata,
        derive_user_lp_ata(&user, &mint),
    );
    expect(
        &[&user.bytes, spl_token::id().as_ref(), &mint.bytes],
        &ata,
        derive_pool_ata(&user, &ids::token_program(), &mint),
    );
}

#[test]
fn associated_account_matches_helper() {
    let owner = key(11);
    let mint = key(12);
    let (a, _) = derive_pool_ata(&owner, &ids::token_program(), &mint).unwrap();
    let expected = spl_associated_token_account::get_associated_token_address(&pk(&owner), &pk(&mint));
    assert_eq!(a.bytes, expected.to_bytes());
}

#[test]
fn derived_address_differs_from_inputs() {
    let seeds = vec![vec![1u8, 2, 3]];
    let program = key(5);
    let (a, _) = derive_address(&seeds, &program).unwrap();
    assert_ne!(a, program);
}

#[test]
fn too_many_seeds_derive_nothing() {
    let seeds: Vec<Vec<u8>> = (0..16u8).map(|i| vec![i]).collect();
    assert_eq!(derive_address(&seeds, &key(5)), None);
    let long = vec![vec![0u8; 33]];
    assert_eq!(derive_address(&long, &key(5)), None);
}

#[test]
fn well_known_ids_match_their_crates() {
    assert_eq!(ids::token_program().bytes, spl_token::id().to_bytes());
    assert_eq!(ids::token_2022_program().bytes, spl_token_2022::id().to_bytes());
    assert_eq!(ids::associated_token_program().bytes, spl_associated_token_account::id().to_bytes());
    assert_eq!(ids::system_program().bytes, solana_sdk::system_program::id().to_bytes());
    assert_eq!(ids::rent_sysvar().bytes, solana_sdk::sysvar::rent::id().to_bytes());
}

#[test]
fn configured_addresses_match_their_text() {
    let pairs = [
        (ids::pump_fun_launchpad_program(), "6EF8rrecthR5Dkzon8Nwu78hRvfCKubJ14M5uBEwF6P"),
        (ids::pumpfun_amm_program(), "pAMMBay6oceH9fJKBRHGP5D4bD4sWpmSwMn52FMfXEA"),
        (ids::pump_fun_mint_authority(), "TSLvdd1pWpHVjahSpsvCXUbgwsL3JAcvokwaKt1eokM"),
        (ids::pump_fun_global_config(), "ADyA8hdefvWN2dbGGWFotbzWxrAvLW83WG6QCVXvJKqw"),
        (ids::pump_fun_launchpad_event_authority(), "Ce6TQqeHC9p8KetsN6JsjHK7UTZk7nasjjnr7XxXp9F1"),
        (ids::pump_fun_amm_event_authority(), "GS4CU59F31iL7aR2Q8zVS8DRrcRnXX1yjQ66TqNVQnaR"),
        (ids::pump_fun_launchpad_global_volume_accumulator(), "Hq2wp8uJ9jCPsYgNHex8RtqdvMPfVGoYwjvF1ATiwn2Y"),
        (ids::pump_fun_amm_global_volume_accumulator(), "C2aFPdENg4A2HQsmrd5rTw5TaYBX5Ku887cWjbFKtZpw"),
        (ids::pump_fun_amm_coin_creator_vault_authority(), "8N3GDaZ2iwN65oxVatKTLPNooAVUJTbfiVJ1ahyqwjSk"),
        (ids::pump_fun_launchpad_fee_recipient(), "68yFSZxzLWJXkxxRGydZ63C6mHx1NLEDWmwN9Lb5yySg"),
        (ids::pump_fun_amm_fee_recipient(), "12e2F4DKkD3Lff6WPYsU7Xd76SHPEyN9T8XSsTJNF8oT"),
        (ids::global(), "4wTV1YmiEkRvAtNtsSGPtUrqRYQMe5SKy2uB4Jjaxnjf"),
        (ids::mpl_token_program(), "metaqbxxUerdq28cj1RbAWkYQm3ybzjb6a8bt518x1s"),
        (ids::metadata_program(), "metaqbxxUerdq28cj1RbAWkYQm3ybzjb6a8bt518x1s"),
    ];
    for (a, text) in pairs {
        assert_eq!(a.bytes, Pubkey::from_str_const(text).to_bytes(), "{}", text);
    }
}
