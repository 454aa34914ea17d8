//! Program-derived addresses: canonical account addresses computed from
//! seed tags, keys and an owning program.

use crate::ids::{
    associated_token_program, associated_token_program_bytes, metadata_program,
    metadata_program_bytes, pump_fun_launchpad_program, pump_fun_launchpad_program_bytes,
    pumpfun_amm_program, pumpfun_amm_program_bytes, token_2022_program, token_2022_program_bytes,
    token_program, token_program_bytes,
};
use solana_program::pubkey::Pubkey;
use vstd::prelude::*;
use vstd::slice::slice_to_vec;

verus! {

/// A 32-byte account address.
#[derive(Clone, Copy, Debug, Eq)]
pub struct Address {
    pub bytes: [u8; 32],
}

impl View for Address {
    type V = Seq<u8>;

    open spec fn view(&self) -> Seq<u8> {
        self.bytes@
    }
}

impl PartialEq for Address {
    fn eq(&self, o: &Address) -> (r: bool)
        ensures
            r == (self@ == o@),
    {
        let mut i: usize = 0;
        while i < 32
            invariant
                i <= 32,
                forall|j: int| 0 <= j < i ==> self.bytes@[j] == o.bytes@[j],
            decreases 32 - i,
        {
            if self.bytes[i] != o.bytes[i] {
                return false;
            }
            i = i + 1;
        }
        assert(self@ =~= o@);
        true
    }
}

impl vstd::std_specs::cmp::PartialEqSpecImpl for Address {
    open spec fn obeys_eq_spec() -> bool {
        true
    }

    open spec fn eq_spec(&self, o: &Address) -> bool {
        self@ == o@
    }
}

/// What `Pubkey::try_find_program_address` returns for the given seeds and
/// owning program: the first off-curve address found while the bump byte is
/// counted down from 255, with that bump; nothing where no bump gives one, or
/// where there are 16 seeds or more or a seed is longer than 32 bytes.
pub uninterp spec fn program_address(seeds: Seq<Seq<u8>>, program: Seq<u8>) -> Option<(Seq<u8>, u8)>;

/// The view of a list of seeds.
pub open spec fn seeds_view(seeds: Seq<Vec<u8>>) -> Seq<Seq<u8>> {
    seeds.map_values(|s: Vec<u8>| s@)
}

/// The view of a derivation result.
pub open spec fn derived_view(r: Option<(Address, u8)>) -> Option<(Seq<u8>, u8)> {
    match r {
        Some((a, b)) => Some((a@, b)),
        None => None,
    }
}

/// Relies on `Pubkey::try_find_program_address`: the derived address and bump
/// depend on the seeds and the program alone.
#[verifier::external_body]
fn try_find_program_address(seeds: &Vec<Vec<u8>>, program: &Address) -> (r: Option<(Address, u8)>)
    ensures
        derived_view(r) == program_address(seeds_view(seeds@), program@),
{
    let refs: Vec<&[u8]> = seeds.iter().map(|s| s.as_slice()).collect();
    Pubkey::try_find_program_address(&refs, &Pubkey::new_from_array(program.bytes))
        .map(|(k, b)| (Address { bytes: k.to_bytes() }, b))
}

/// Derivation is deterministic: the same seeds under the same program give
/// the same address and bump.
pub proof fn lemma_derive_deterministic(
    seeds1: Seq<Seq<u8>>,
    program1: Seq<u8>,
    seeds2: Seq<Seq<u8>>,
    program2: Seq<u8>,
)
    requires
        seeds1 == seeds2,
        program1 == program2,
    ensures
        program_address(seeds1, program1) == program_address(seeds2, program2),
{
}

/// Derives the canonical address of `seeds` under `program`.
pub fn derive_address(seeds: &Vec<Vec<u8>>, program: &Address) -> (r: Option<(Address, u8)>)
    ensures
        derived_view(r) == program_address(seeds_view(seeds@), program@),
{
    try_find_program_address(seeds, program)
}

/// The seed tag `bonding-curve`.
pub open spec fn bonding_curve_tag() -> Seq<u8> {
    seq![98u8, 111, 110, 100, 105, 110, 103, 45, 99, 117, 114, 118, 101]
}

fn bonding_curve_tag_vec() -> (r: Vec<u8>)
    ensures
        r@ == bonding_curve_tag(),
{
    let r: Vec<u8> = vec![98, 111, 110, 100, 105, 110, 103, 45, 99, 117, 114, 118, 101];
    assert(r@ =~= bonding_curve_tag());
    r
}

/// The seed tag `metadata`.
pub open spec fn metadata_tag() -> Seq<u8> {
    seq![109u8, 101, 116, 97, 100, 97, 116, 97]
}

fn metadata_tag_vec() -> (r: Vec<u8>)
    ensures
        r@ == metadata_tag(),
{
    let r: Vec<u8> = vec![109, 101, 116, 97, 100, 97, 116, 97];
    assert(r@ =~= metadata_tag());
    r
}

/// The seed tag `creator-vault`.
pub open spec fn creator_vault_launchpad_tag() -> Seq<u8> {
    seq![99u8, 114, 101, 97, 116, 111, 114, 45, 118, 97, 117, 108, 116]
}

fn creator_vault_launchpad_tag_vec() -> (r: Vec<u8>)
    ensures
        r@ == creator_vault_launchpad_tag(),
{
    let r: Vec<u8> = vec![99, 114, 101, 97, 116, 111, 114, 45, 118, 97, 117, 108, 116];
    assert(r@ =~= creator_vault_launchpad_tag());
    r
}

/// The seed tag `creator_vault`.
pub open spec fn creator_vault_tag() -> Seq<u8> {
    seq![99u8, 114, 101, 97, 116, 111, 114, 95, 118, 97, 117, 108, 116]
}

fn creator_vault_tag_vec() -> (r: Vec<u8>)
    ensures
        r@ == creator_vault_tag(),
{
    let r: Vec<u8> = vec![99, 114, 101, 97, 116, 111, 114, 95, 118, 97, 117, 108, 116];
    assert(r@ =~= creator_vault_tag());
    r
}

/// The seed tag `user_volume_accumulator`.
pub open spec fn user_volume_accumulator_tag() -> Seq<u8> {
    seq![117u8, 115, 101, 114, 95, 118, 111, 108, 117, 109, 101, 95, 97, 99, 99, 117, 109, 117, 108, 97, 116, 111, 114]
}

fn user_volume_accumulator_tag_vec() -> (r: Vec<u8>)
    ensures
        r@ == user_volume_accumulator_tag(),
{
    let r: Vec<u8> = vec![117, 115, 101, 114, 95, 118, 111, 108, 117, 109, 101, 95, 97, 99, 99, 117, 109, 117, 108, 97, 116, 111, 114];
    assert(r@ =~= user_volume_accumulator_tag());
    r
}

/// The seed tag `global_volume_accumulator`.
pub open spec fn global_volume_accumulator_tag() -> Seq<u8> {
    seq![103u8, 108, 111, 98, 97, 108, 95, 118, 111, 108, 117, 109, 101, 95, 97, 99, 99, 117, 109, 117, 108, 97, 116, 111, 114]
}

fn global_volume_accumulator_tag_vec() -> (r: Vec<u8>)
    ensures
        r@ == global_volume_accumulator_tag(),
{
    let r: Vec<u8> = vec![103, 108, 111, 98, 97, 108, 95, 118, 111, 108, 117, 109, 101, 95, 97, 99, 99, 117, 109, 117, 108, 97, 116, 111, 114];
    assert(r@ =~= global_volume_accumulator_tag());
    r
}

/// The seed tag `__event_authority`.
pub open spec fn event_authority_tag() -> Seq<u8> {
    seq![95u8, 95, 101, 118, 101, 110, 116, 95, 97, 117, 116, 104, 111, 114, 105, 116, 121]
}

fn event_authority_tag_vec() -> (r: Vec<u8>)
    ensures
        r@ == event_authority_tag(),
{
    let r: Vec<u8> = vec![95, 95, 101, 118, 101, 110, 116, 95, 97, 117, 116, 104, 111, 114, 105, 116, 121];
    assert(r@ =~= event_authority_tag());
    r
}

/// The seed tag `global_config`.
pub open spec fn global_config_tag() -> Seq<u8> {
    seq![103u8, 108, 111, 98, 97, 108, 95, 99, 111, 110, 102, 105, 103]
}

fn global_config_tag_vec() -> (r: Vec<u8>)
    ensures
        r@ == global_config_tag(),
{
    let r: Vec<u8> = vec![103, 108, 111, 98, 97, 108, 95, 99, 111, 110, 102, 105, 103];
    assert(r@ =~= global_config_tag());
    r
}

/// The seed tag `pool`.
pub open spec fn pool_tag() -> Seq<u8> {
    seq![112u8, 111, 111, 108]
}

fn pool_tag_vec() -> (r: Vec<u8>)
    ensures
        r@ == pool_tag(),
{
    let r: Vec<u8> = vec![112, 111, 111, 108];
    assert(r@ =~= pool_tag());
    r
}

/// The seed tag `pool_lp_mint`.
pub open spec fn pool_lp_mint_tag() -> Seq<u8> {
    seq![112u8, 111, 111, 108, 95, 108, 112, 95, 109, 105, 110, 116]
}

fn pool_lp_mint_tag_vec() -> (r: Vec<u8>)
    ensures
        r@ == pool_lp_mint_tag(),
{
    let r: Vec<u8> = vec![112, 111, 111, 108, 95, 108, 112, 95, 109, 105, 110, 116];
    assert(r@ =~= pool_lp_mint_tag());
    r
}

/// The bonding curve of a mint.
pub open spec fn bonding_curve_address(mint: Seq<u8>) -> Option<(Seq<u8>, u8)> {
    program_address(seq![bonding_curve_tag(), mint], pump_fun_launchpad_program_bytes())
}

/// The token account of a bonding curve for a mint.
pub open spec fn associated_bonding_curve_address(bounding_curve: Seq<u8>, mint: Seq<u8>) -> Option<
    (Seq<u8>, u8),
> {
    program_address(
        seq![bounding_curve, token_program_bytes(), mint],
        associated_token_program_bytes(),
    )
}

/// The metadata account of a mint.
pub open spec fn metadata_address(mint: Seq<u8>) -> Option<(Seq<u8>, u8)> {
    program_address(
        seq![metadata_tag(), metadata_program_bytes(), mint],
        metadata_program_bytes(),
    )
}

/// The launchpad vault of a creator.
pub open spec fn creator_vault_address(creator: Seq<u8>) -> Option<(Seq<u8>, u8)> {
    program_address(seq![creator_vault_launchpad_tag(), creator], pump_fun_launchpad_program_bytes())
}

/// The launchpad's volume accumulator of a user.
pub open spec fn user_volume_accumulator_address(user: Seq<u8>) -> Option<(Seq<u8>, u8)> {
    program_address(seq![user_volume_accumulator_tag(), user], pump_fun_launchpad_program_bytes())
}

/// The pool of a creator for two mints at an index.
pub open spec fn pool_address(index: u16, creator: Seq<u8>, base: Seq<u8>, quote: Seq<u8>) -> Option<
    (Seq<u8>, u8),
> {
    program_address(seq![pool_tag(), be_u16(index), creator, base, quote], pumpfun_amm_program_bytes())
}

/// The liquidity-token mint of a pool.
pub open spec fn pool_mint_address(pool: Seq<u8>) -> Option<(Seq<u8>, u8)> {
    program_address(seq![pool_lp_mint_tag(), pool], pumpfun_amm_program_bytes())
}

/// The liquidity-token account of a creator.
pub open spec fn user_lp_ata_address(creator: Seq<u8>, lp_mint: Seq<u8>) -> Option<(Seq<u8>, u8)> {
    program_address(
        seq![creator, token_2022_program_bytes(), lp_mint],
        associated_token_program_bytes(),
    )
}

/// The token account of a pool for a mint under a token program.
pub open spec fn pool_ata_address(pool: Seq<u8>, token_program: Seq<u8>, mint: Seq<u8>) -> Option<
    (Seq<u8>, u8),
> {
    program_address(seq![pool, token_program, mint], associated_token_program_bytes())
}

/// The seed bytes of a key.
pub(crate) fn key_seed(a: &Address) -> (r: Vec<u8>)
    ensures
        r@ == a@,
{
    slice_to_vec(a.bytes.as_slice())
}

/// The big-endian bytes of a 16-bit value.
pub open spec fn be_u16(x: u16) -> Seq<u8> {
    seq![(x / 256) as u8, (x % 256) as u8]
}

/// The launchpad's global volume accumulator.
pub fn derive_global_volume_accumulator() -> (r: Option<(Address, u8)>)
    ensures
        derived_view(r) == program_address(
            seq![global_volume_accumulator_tag()],
            pump_fun_launchpad_program_bytes(),
        ),
{
    let seeds = vec![global_volume_accumulator_tag_vec()];
    proof { assert(seeds_view(seeds@) =~= seq![global_volume_accumulator_tag()]); }
    try_find_program_address(&seeds, &pump_fun_launchpad_program())
}

/// The launchpad's event authority.
pub fn derive_event_authority() -> (r: Option<(Address, u8)>)
    ensures
        derived_view(r) == program_address(
            seq![event_authority_tag()],
            pump_fun_launchpad_program_bytes(),
        ),
{
    let seeds = vec![event_authority_tag_vec()];
    proof { assert(seeds_view(seeds@) =~= seq![event_authority_tag()]); }
    try_find_program_address(&seeds, &pump_fun_launchpad_program())
}

/// The AMM's global configuration account.
pub fn derive_global_config() -> (r: Option<(Address, u8)>)
    ensures
        derived_view(r) == program_address(seq![global_config_tag()], pumpfun_amm_program_bytes()),
{
    let seeds = vec![global_config_tag_vec()];
    proof { assert(seeds_view(seeds@) =~= seq![global_config_tag()]); }
    try_find_program_address(&seeds, &pumpfun_amm_program())
}

/// The bonding curve of a mint.
pub fn derive_bounding_curve(mint: &Address) -> (r: Option<(Address, u8)>)
    ensures
        derived_view(r) == program_address(
            seq![bonding_curve_tag(), mint@],
            pump_fun_launchpad_program_bytes(),
        ),
{
    let seeds = vec![bonding_curve_tag_vec(), key_seed(mint)];
    proof { assert(seeds_view(seeds@) =~= seq![bonding_curve_tag(), mint@]); }
    try_find_program_address(&seeds, &pump_fun_launchpad_program())
}

/// The token account of a bonding curve for a mint (token program).
pub fn derive_associated_bounding_curve(bounding_curve: &Address, mint: &Address) -> (r: Option<
    (Address, u8),
>)
    ensures
        derived_view(r) == program_address(
            seq![bounding_curve@, token_program_bytes(), mint@],
            associated_token_program_bytes(),
        ),
{
    let seeds = vec![key_seed(bounding_curve), key_seed(&token_program()), key_seed(mint)];
    proof {
        assert(seeds_view(seeds@) =~= seq![bounding_curve@, token_program_bytes(), mint@]);
    }
    try_find_program_address(&seeds, &associated_token_program())
}

/// The metadata account of a mint.
pub fn derive_metadata(mint: &Address) -> (r: Option<(Address, u8)>)
    ensures
        derived_view(r) == program_address(
            seq![metadata_tag(), metadata_program_bytes(), mint@],
            metadata_program_bytes(),
        ),
{
    let seeds = vec![metadata_tag_vec(), key_seed(&metadata_program()), key_seed(mint)];
    proof {
        assert(seeds_view(seeds@) =~= seq![metadata_tag(), metadata_program_bytes(), mint@]);
    }
    try_find_program_address(&seeds, &metadata_program())
}

/// The launchpad vault that collects a creator's fees.
pub fn derive_creator_vault(creator: &Address) -> (r: Option<(Address, u8)>)
    ensures
        derived_view(r) == program_address(
            seq![creator_vault_launchpad_tag(), creator@],
            pump_fun_launchpad_program_bytes(),
        ),
{
    let seeds = vec![creator_vault_launchpad_tag_vec(), key_seed(creator)];
    proof { assert(seeds_view(seeds@) =~= seq![creator_vault_launchpad_tag(), creator@]); }
    try_find_program_address(&seeds, &pump_fun_launchpad_program())
}

/// The AMM authority over a coin creator's vault.
pub fn derive_coin_creator_vault_authority(creator: &Address) -> (r: Option<(Address, u8)>)
    ensures
        derived_view(r) == program_address(
            seq![creator_vault_tag(), creator@],
            pumpfun_amm_program_bytes(),
        ),
{
    let seeds = vec![creator_vault_tag_vec(), key_seed(creator)];
    proof { assert(seeds_view(seeds@) =~= seq![creator_vault_tag(), creator@]); }
    try_find_program_address(&seeds, &pumpfun_amm_program())
}

/// The launchpad's volume accumulator of a user.
pub fn derive_user_volume_accumulator(user: &Address) -> (r: Option<(Address, u8)>)
    ensures
        derived_view(r) == program_address(
            seq![user_volume_accumulator_tag(), user@],
            pump_fun_launchpad_program_bytes(),
        ),
{
    let seeds = vec![user_volume_accumulator_tag_vec(), key_seed(user)];
    proof { assert(seeds_view(seeds@) =~= seq![user_volume_accumulator_tag(), user@]); }
    try_find_program_address(&seeds, &pump_fun_launchpad_program())
}

/// The AMM's volume accumulator of a user.
pub fn derive_amm_user_volume_accumulator(user: &Address) -> (r: Option<(Address, u8)>)
    ensures
        derived_view(r) == program_address(
            seq![user_volume_accumulator_tag(), user@],
            pumpfun_amm_program_bytes(),
        ),
{
    let seeds = vec![user_volume_accumulator_tag_vec(), key_seed(user)];
    proof { assert(seeds_view(seeds@) =~= seq![user_volume_accumulator_tag(), user@]); }
    try_find_program_address(&seeds, &pumpfun_amm_program())
}

/// The pool of a creator for a base and a quote mint, at an index.
pub fn derive_pool(index: u16, creator: &Address, base: &Address, quote: &Address) -> (r: Option<
    (Address, u8),
>)
    ensures
        derived_view(r) == program_address(
            seq![pool_tag(), be_u16(index), creator@, base@, quote@],
            pumpfun_amm_program_bytes(),
        ),
{
    let index_bytes: Vec<u8> = vec![(index / 256) as u8, (index % 256) as u8];
    let seeds = vec![
        pool_tag_vec(),
        index_bytes,
        key_seed(creator),
        key_seed(base),
        key_seed(quote),
    ];
    proof {
        assert(seeds@[1]@ =~= be_u16(index));
        assert(seeds_view(seeds@) =~= seq![pool_tag(), be_u16(index), creator@, base@, quote@]);
    }
    try_find_program_address(&seeds, &pumpfun_amm_program())
}

/// The liquidity-token mint of a pool.
pub fn derive_pool_mint(pool: &Address) -> (r: Option<(Address, u8)>)
    ensures
        derived_view(r) == program_address(
            seq![pool_lp_mint_tag(), pool@],
            pumpfun_amm_program_bytes(),
        ),
{
    let seeds = vec![pool_lp_mint_tag_vec(), key_seed(pool)];
    proof { assert(seeds_view(seeds@) =~= seq![pool_lp_mint_tag(), pool@]); }
    try_find_program_address(&seeds, &pumpfun_amm_program())
}

/// The liquidity-token account of a creator (token-2022 program).
pub fn derive_user_lp_ata(creator: &Address, lp_mint: &Address) -> (r: Option<(Address, u8)>)
    ensures
        derived_view(r) == program_address(
            seq![creator@, token_2022_program_bytes(), lp_mint@],
            associated_token_program_bytes(),
        ),
{
    let seeds = vec![key_seed(creator), key_seed(&token_2022_program()), key_seed(lp_mint)];
    proof {
        assert(seeds_view(seeds@) =~= seq![creator@, token_2022_program_bytes(), lp_mint@]);
    }
    try_find_program_address(&seeds, &associated_token_program())
}

/// The token account of a pool for a mint under a token program.
pub fn derive_pool_ata(pool: &Address, token_program: &Address, mint: &Address) -> (r: Option<
    (Address, u8),
>)
    ensures
        derived_view(r) == program_address(
            seq![pool@, token_program@, mint@],
            associated_token_program_bytes(),
        ),
{
    let seeds = vec![key_seed(pool), key_seed(token_program), key_seed(mint)];
    proof { assert(seeds_view(seeds@) =~= seq![pool@, token_program@, mint@]); }
    try_find_program_address(&seeds, &associated_token_program())
}

} // verus!
