//! Instructions of the AMM program.

use crate::address::{
    derive_pool, derive_pool_ata, derive_pool_mint, derive_user_lp_ata, key_seed, pool_address,
    pool_ata_address, pool_mint_address, user_lp_ata_address, Address,
};
use crate::error::{Error, ProgramError};
use crate::ids::{
    associated_token_program, associated_token_program_bytes, pump_fun_amm_event_authority,
    pump_fun_amm_event_authority_bytes, pump_fun_global_config, pump_fun_global_config_bytes,
    pumpfun_amm_program, pumpfun_amm_program_bytes, system_program, system_program_bytes,
    token_2022_program, token_2022_program_bytes, token_program, token_program_bytes,
};
use crate::instruction::{metas_view, readonly, writable, AccountMeta, Instruction};
use crate::pumpfun_cpi::push_u64;
use vstd::bytes::{spec_u16_to_le_bytes, spec_u64_to_le_bytes, u16_to_le_bytes};
use vstd::prelude::*;

verus! {

/// The arguments of `create_pool`.
#[derive(Clone, Copy, Debug)]
pub struct CreatePool {
    pub index: u16,
    pub base_amount_in: u64,
    pub quote_amount_in: u64,
    pub coin_creator: Address,
}

/// The payload of `create_pool`.
pub open spec fn create_pool_data(c: CreatePool) -> Seq<u8> {
    seq![233u8, 146, 209, 142, 207, 104, 64, 188] + spec_u16_to_le_bytes(c.index)
        + spec_u64_to_le_bytes(c.base_amount_in) + spec_u64_to_le_bytes(c.quote_amount_in)
        + c.coin_creator@
}

/// The 18 account references of `create_pool`, given the derived addresses.
pub open spec fn create_pool_accounts(
    creator: Seq<u8>,
    base: Seq<u8>,
    quote: Seq<u8>,
    user_base_ata: Seq<u8>,
    user_quote_ata: Seq<u8>,
    pool: Seq<u8>,
    lp_mint: Seq<u8>,
    user_lp_ata: Seq<u8>,
    pool_base_ata: Seq<u8>,
    pool_quote_ata: Seq<u8>,
) -> Seq<(Seq<u8>, bool, bool)> {
    seq![
        writable(pool, false),
        writable(pump_fun_global_config_bytes(), false),
        writable(creator, true),
        readonly(base, false),
        readonly(quote, false),
        writable(lp_mint, false),
        writable(user_base_ata, false),
        writable(user_quote_ata, false),
        writable(user_lp_ata, false),
        writable(pool_base_ata, false),
        writable(pool_quote_ata, false),
        readonly(system_program_bytes(), false),
        readonly(token_2022_program_bytes(), false),
        readonly(token_program_bytes(), false),
        readonly(token_program_bytes(), false),
        readonly(associated_token_program_bytes(), false),
        readonly(pump_fun_amm_event_authority_bytes(), false),
        readonly(pumpfun_amm_program_bytes(), false),
    ]
}

/// The account references of `create_pool`, or `None` where an address
/// cannot be derived.
pub open spec fn create_pool_accounts_of(
    creator: Seq<u8>,
    base: Seq<u8>,
    quote: Seq<u8>,
    user_base_ata: Seq<u8>,
    user_quote_ata: Seq<u8>,
    index: u16,
) -> Option<Seq<(Seq<u8>, bool, bool)>> {
    match pool_address(index, creator, base, quote) {
        None => None,
        Some((pool, _)) => match pool_mint_address(pool) {
            None => None,
            Some((lp_mint, _)) => match user_lp_ata_address(creator, lp_mint) {
                None => None,
                Some((user_lp_ata, _)) => match pool_ata_address(pool, token_program_bytes(), base) {
                    None => None,
                    Some((pool_base_ata, _)) => match pool_ata_address(
                        pool,
                        token_program_bytes(),
                        quote,
                    ) {
                        None => None,
                        Some((pool_quote_ata, _)) => Some(
                            create_pool_accounts(
                                creator,
                                base,
                                quote,
                                user_base_ata,
                                user_quote_ata,
                                pool,
                                lp_mint,
                                user_lp_ata,
                                pool_base_ata,
                                pool_quote_ata,
                            ),
                        ),
                    },
                },
            },
        },
    }
}

/// Builds `create_pool` of `creator` for the `base` and `quote` mints, funded
/// from the creator's token accounts.
pub fn create_pool(
    creator: &Address,
    base: &Address,
    quote: &Address,
    user_base_ata: &Address,
    user_quote_ata: &Address,
    instruction: CreatePool,
) -> (r: Result<Instruction, Error>)
    ensures
        match create_pool_accounts_of(
            creator@,
            base@,
            quote@,
            user_base_ata@,
            user_quote_ata@,
            instruction.index,
        ) {
            Some(accounts) => r matches Ok(ix) && ix.program_id@ == pumpfun_amm_program_bytes()
                && metas_view(ix.accounts@) == accounts && ix.data@ == create_pool_data(
                instruction,
            ),
            None => r == Err::<Instruction, Error>(Error::ProgramError(ProgramError::InvalidSeeds)),
        },
{
    let (pool, _) = match derive_pool(instruction.index, creator, base, quote) {
        Some(d) => d,
        None => return Err(Error::ProgramError(ProgramError::InvalidSeeds)),
    };
    let (lp_mint, _) = match derive_pool_mint(&pool) {
        Some(d) => d,
        None => return Err(Error::ProgramError(ProgramError::InvalidSeeds)),
    };
    let (user_lp_ata, _) = match derive_user_lp_ata(creator, &lp_mint) {
        Some(d) => d,
        None => return Err(Error::ProgramError(ProgramError::InvalidSeeds)),
    };
    let (pool_base_ata, _) = match derive_pool_ata(&pool, &token_program(), base) {
        Some(d) => d,
        None => return Err(Error::ProgramError(ProgramError::InvalidSeeds)),
    };
    let (pool_quote_ata, _) = match derive_pool_ata(&pool, &token_program(), quote) {
        Some(d) => d,
        None => return Err(Error::ProgramError(ProgramError::InvalidSeeds)),
    };
    let accounts = vec![
        AccountMeta::new(pool, false),
        AccountMeta::new(pump_fun_global_config(), false),
        AccountMeta::new(*creator, true),
        AccountMeta::new_readonly(*base, false),
        AccountMeta::new_readonly(*quote, false),
        AccountMeta::new(lp_mint, false),
        AccountMeta::new(*user_base_ata, false),
        AccountMeta::new(*user_quote_ata, false),
        AccountMeta::new(user_lp_ata, false),
        AccountMeta::new(pool_base_ata, false),
        AccountMeta::new(pool_quote_ata, false),
        AccountMeta::new_readonly(system_program(), false),
        AccountMeta::new_readonly(token_2022_program(), false),
        AccountMeta::new_readonly(token_program(), false),
        AccountMeta::new_readonly(token_program(), false),
        AccountMeta::new_readonly(associated_token_program(), false),
        AccountMeta::new_readonly(pump_fun_amm_event_authority(), false),
        AccountMeta::new_readonly(pumpfun_amm_program(), false),
    ];
    let mut data: Vec<u8> = vec![233, 146, 209, 142, 207, 104, 64, 188];
    let mut index = u16_to_le_bytes(instruction.index);
    data.append(&mut index);
    push_u64(&mut data, instruction.base_amount_in);
    push_u64(&mut data, instruction.quote_amount_in);
    let mut coin_creator = key_seed(&instruction.coin_creator);
    data.append(&mut coin_creator);
    let ix = Instruction { program_id: pumpfun_amm_program(), accounts, data };
    proof {
        assert(metas_view(ix.accounts@) =~= create_pool_accounts(
            creator@,
            base@,
            quote@,
            user_base_ata@,
            user_quote_ata@,
            pool@,
            lp_mint@,
            user_lp_ata@,
            pool_base_ata@,
            pool_quote_ata@,
        ));
        assert(ix.data@ =~= create_pool_data(instruction));
    }
    Ok(ix)
}

} // verus!
