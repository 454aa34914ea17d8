//! Instructions of the launchpad (bonding-curve) program.

use crate::address::{
    associated_bonding_curve_address, bonding_curve_address, creator_vault_address,
    derive_associated_bounding_curve, derive_bounding_curve, derive_creator_vault, derive_metadata,
    derive_user_volume_accumulator, key_seed, metadata_address, user_volume_accumulator_address,
    Address,
};
use crate::error::{Error, ProgramError};
use crate::ids::{
    associated_token_program, associated_token_program_bytes, global, global_bytes,
    mpl_token_program, mpl_token_program_bytes, pump_fun_launchpad_event_authority,
    pump_fun_launchpad_event_authority_bytes, pump_fun_launchpad_fee_recipient,
    pump_fun_launchpad_fee_recipient_bytes, pump_fun_launchpad_global_volume_accumulator,
    pump_fun_launchpad_global_volume_accumulator_bytes, pump_fun_launchpad_program,
    pump_fun_launchpad_program_bytes, pump_fun_mint_authority, pump_fun_mint_authority_bytes,
    rent_sysvar, rent_sysvar_bytes, system_program, system_program_bytes, token_program,
    token_program_bytes,
};
use crate::instruction::{metas_view, readonly, writable, AccountMeta, Instruction};
use crate::pumpfun_cpi::push_u64;
use vstd::bytes::{spec_u32_to_le_bytes, spec_u64_to_le_bytes, u32_to_le_bytes};
use vstd::prelude::*;
use vstd::slice::slice_to_vec;
use vstd::utf8::encode_utf8;

verus! {

/// The state of a bonding curve.
#[derive(Clone, Copy, Debug, PartialEq, Eq, Structural)]
pub struct BoundingCurve {
    pub virtual_token_reserves: u64,
    pub virtual_sol_reserves: u64,
    pub real_token_reserves: u64,
    pub real_sol_reserves: u64,
    pub token_total_supply: u64,
    pub complete: bool,
}

/// The arguments of `create`.
#[derive(Clone, Debug)]
pub struct CreateToken {
    pub name: String,
    pub symbol: String,
    pub uri: String,
    pub creater: Address,
}

/// The arguments of the launchpad's `buy`.
#[derive(Clone, Copy, Debug, PartialEq, Eq, Structural)]
pub struct Buy {
    pub amount: u64,
    pub max_sol_cost: u64,
}

/// A string as a 32-bit little-endian byte count and its UTF-8 bytes.
pub open spec fn string_bytes(s: Seq<char>) -> Seq<u8> {
    spec_u32_to_le_bytes(encode_utf8(s).len() as u32) + encode_utf8(s)
}

/// Each string of `c` fits a 32-bit byte count.
pub open spec fn create_token_fits(c: CreateToken) -> bool {
    &&& encode_utf8(c.name@).len() <= u32::MAX
    &&& encode_utf8(c.symbol@).len() <= u32::MAX
    &&& encode_utf8(c.uri@).len() <= u32::MAX
}

/// The payload of `create`.
pub open spec fn create_token_data(c: CreateToken) -> Seq<u8> {
    seq![24u8, 30, 200, 40, 5, 28, 7, 119] + string_bytes(c.name@) + string_bytes(c.symbol@)
        + string_bytes(c.uri@) + c.creater@
}

/// The 14 account references of `create`, given the derived addresses.
pub open spec fn create_token_accounts(
    payer: Seq<u8>,
    mint: Seq<u8>,
    bounding_curve: Seq<u8>,
    associated_bounding_curve: Seq<u8>,
    metadata: Seq<u8>,
) -> Seq<(Seq<u8>, bool, bool)> {
    seq![
        writable(mint, true),
        readonly(pump_fun_mint_authority_bytes(), false),
        writable(bounding_curve, false),
        writable(associated_bounding_curve, false),
        readonly(global_bytes(), false),
        readonly(mpl_token_program_bytes(), false),
        writable(metadata, false),
        writable(payer, true),
        readonly(system_program_bytes(), false),
        readonly(token_program_bytes(), false),
        readonly(associated_token_program_bytes(), false),
        readonly(rent_sysvar_bytes(), false),
        readonly(pump_fun_launchpad_event_authority_bytes(), false),
        readonly(pump_fun_launchpad_program_bytes(), false),
    ]
}

/// The account references of `create`, or `None` where an address cannot be
/// derived.
pub open spec fn create_token_accounts_of(payer: Seq<u8>, mint: Seq<u8>) -> Option<
    Seq<(Seq<u8>, bool, bool)>,
> {
    match bonding_curve_address(mint) {
        None => None,
        Some((bc, _)) => match associated_bonding_curve_address(bc, mint) {
            None => None,
            Some((abc, _)) => match metadata_address(mint) {
                None => None,
                Some((md, _)) => Some(create_token_accounts(payer, mint, bc, abc, md)),
            },
        },
    }
}

/// The payload of the launchpad's `buy`.
pub open spec fn buy_data(b: Buy) -> Seq<u8> {
    seq![102u8, 6, 61, 18, 1, 218, 235, 234] + spec_u64_to_le_bytes(b.amount)
        + spec_u64_to_le_bytes(b.max_sol_cost)
}

/// The 14 account references of the launchpad's `buy`, given the derived
/// addresses.
pub open spec fn buy_accounts(
    payer: Seq<u8>,
    payer_ata: Seq<u8>,
    mint: Seq<u8>,
    bounding_curve: Seq<u8>,
    associated_bounding_curve: Seq<u8>,
    creator_vault: Seq<u8>,
    user_volume_accumulator: Seq<u8>,
) -> Seq<(Seq<u8>, bool, bool)> {
    seq![
        readonly(global_bytes(), false),
        writable(pump_fun_launchpad_fee_recipient_bytes(), false),
        readonly(mint, false),
        writable(bounding_curve, false),
        writable(associated_bounding_curve, false),
        writable(payer_ata, false),
        writable(payer, true),
        readonly(system_program_bytes(), false),
        readonly(token_program_bytes(), false),
        writable(creator_vault, false),
        readonly(pump_fun_launchpad_event_authority_bytes(), false),
        readonly(pump_fun_launchpad_program_bytes(), false),
        writable(pump_fun_launchpad_global_volume_accumulator_bytes(), false),
        writable(user_volume_accumulator, false),
    ]
}

/// The account references of the launchpad's `buy`, or `None` where an
/// address cannot be derived.
pub open spec fn buy_accounts_of(
    payer: Seq<u8>,
    payer_ata: Seq<u8>,
    mint: Seq<u8>,
    creator: Seq<u8>,
) -> Option<Seq<(Seq<u8>, bool, bool)>> {
    match bonding_curve_address(mint) {
        None => None,
        Some((bc, _)) => match associated_bonding_curve_address(bc, mint) {
            None => None,
            Some((abc, _)) => match creator_vault_address(creator) {
                None => None,
                Some((cv, _)) => match user_volume_accumulator_address(payer) {
                    None => None,
                    Some((uva, _)) => Some(buy_accounts(payer, payer_ata, mint, bc, abc, cv, uva)),
                },
            },
        },
    }
}

/// Appends a string as its byte count and its UTF-8 bytes.
fn push_string(data: &mut Vec<u8>, s: &String)
    requires
        encode_utf8(s@).len() <= u32::MAX,
    ensures
        final(data)@ == old(data)@ + string_bytes(s@),
{
    let b = s.as_str().as_bytes();
    let mut count = u32_to_le_bytes(b.len() as u32);
    let mut bytes = slice_to_vec(b);
    data.append(&mut count);
    data.append(&mut bytes);
}

/// Builds `create` for a new mint paid by `payer`.
pub fn create_token(payer: &Address, mint: &Address, instruction: CreateToken) -> (r: Result<
    Instruction,
    Error,
>)
    requires
        create_token_fits(instruction),
    ensures
        match create_token_accounts_of(payer@, mint@) {
            Some(accounts) => r matches Ok(ix) && ix.program_id@ == pump_fun_launchpad_program_bytes()
                && metas_view(ix.accounts@) == accounts && ix.data@ == create_token_data(
                instruction,
            ),
            None => r == Err::<Instruction, Error>(Error::ProgramError(ProgramError::InvalidSeeds)),
        },
{
    let (bounding_curve, _) = match derive_bounding_curve(mint) {
        Some(d) => d,
        None => return Err(Error::ProgramError(ProgramError::InvalidSeeds)),
    };
    let (associated_bounding_curve, _) = match derive_associated_bounding_curve(
        &bounding_curve,
        mint,
    ) {
        Some(d) => d,
        None => return Err(Error::ProgramError(ProgramError::InvalidSeeds)),
    };
    let (metadata, _) = match derive_metadata(mint) {
        Some(d) => d,
        None => return Err(Error::ProgramError(ProgramError::InvalidSeeds)),
    };
    let accounts = vec![
        AccountMeta::new(*mint, true),
        AccountMeta::new_readonly(pump_fun_mint_authority(), false),
        AccountMeta::new(bounding_curve, false),
        AccountMeta::new(associated_bounding_curve, false),
        AccountMeta::new_readonly(global(), false),
        AccountMeta::new_readonly(mpl_token_program(), false),
        AccountMeta::new(metadata, false),
        AccountMeta::new(*payer, true),
        AccountMeta::new_readonly(system_program(), false),
        AccountMeta::new_readonly(token_program(), false),
        AccountMeta::new_readonly(associated_token_program(), false),
        AccountMeta::new_readonly(rent_sysvar(), false),
        AccountMeta::new_readonly(pump_fun_launchpad_event_authority(), false),
        AccountMeta::new_readonly(pump_fun_launchpad_program(), false),
    ];
    let mut data: Vec<u8> = vec![24, 30, 200, 40, 5, 28, 7, 119];
    push_string(&mut data, &instruction.name);
    push_string(&mut data, &instruction.symbol);
    push_string(&mut data, &instruction.uri);
    let mut creater = key_seed(&instruction.creater);
    data.append(&mut creater);
    let ix = Instruction { program_id: pump_fun_launchpad_program(), accounts, data };
    proof {
        assert(metas_view(ix.accounts@) =~= create_token_accounts(
            payer@,
            mint@,
            bounding_curve@,
            associated_bounding_curve@,
            metadata@,
        ));
        assert(ix.data@ =~= create_token_data(instruction));
    }
    Ok(ix)
}

/// Builds the launchpad's `buy` of `mint` for `payer`, whose token account is
/// `payer_ata`; `creator` is the mint's creator.
pub fn buy(payer: &Address, payer_ata: &Address, mint: &Address, creator: &Address, instruction: Buy) -> (r:
    Result<Instruction, Error>)
    ensures
        match buy_accounts_of(payer@, payer_ata@, mint@, creator@) {
            Some(accounts) => r matches Ok(ix) && ix.program_id@ == pump_fun_launchpad_program_bytes()
                && metas_view(ix.accounts@) == accounts && ix.data@ == buy_data(instruction),
            None => r == Err::<Instruction, Error>(Error::ProgramError(ProgramError::InvalidSeeds)),
        },
{
    let (bounding_curve, _) = match derive_bounding_curve(mint) {
        Some(d) => d,
        None => return Err(Error::ProgramError(ProgramError::InvalidSeeds)),
    };
    let (associated_bounding_curve, _) = match derive_associated_bounding_curve(
        &bounding_curve,
        mint,
    ) {
        Some(d) => d,
        None => return Err(Error::ProgramError(ProgramError::InvalidSeeds)),
    };
    let (creator_vault, _) = match derive_creator_vault(creator) {
        Some(d) => d,
        None => return Err(Error::ProgramError(ProgramError::InvalidSeeds)),
    };
    let (user_volume_accumulator, _) = match derive_user_volume_accumulator(payer) {
        Some(d) => d,
        None => return Err(Error::ProgramError(ProgramError::InvalidSeeds)),
    };
    let accounts = vec![
        AccountMeta::new_readonly(global(), false),
        AccountMeta::new(pump_fun_launchpad_fee_recipient(), false),
        AccountMeta::new_readonly(*mint, false),
        AccountMeta::new(bounding_curve, false),
        AccountMeta::new(associated_bounding_curve, false),
        AccountMeta::new(*payer_ata, false),
        AccountMeta::new(*payer, true),
        AccountMeta::new_readonly(system_program(), false),
        AccountMeta::new_readonly(token_program(), false),
        AccountMeta::new(creator_vault, false),
        AccountMeta::new_readonly(pump_fun_launchpad_event_authority(), false),
        AccountMeta::new_readonly(pump_fun_launchpad_program(), false),
        AccountMeta::new(pump_fun_launchpad_global_volume_accumulator(), false),
        AccountMeta::new(user_volume_accumulator, false),
    ];
    let mut data: Vec<u8> = vec![102, 6, 61, 18, 1, 218, 235, 234];
    push_u64(&mut data, instruction.amount);
    push_u64(&mut data, instruction.max_sol_cost);
    let ix = Instruction { program_id: pump_fun_launchpad_program(), accounts, data };
    proof {
        assert(metas_view(ix.accounts@) =~= buy_accounts(
            payer@,
            payer_ata@,
            mint@,
            bounding_curve@,
            associated_bounding_curve@,
            creator_vault@,
            user_volume_accumulator@,
        ));
        assert(ix.data@ =~= buy_data(instruction));
    }
    Ok(ix)
}

} // verus!
