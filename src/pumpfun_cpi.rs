//! The AMM's `buy` instruction, as this program hands it on.

use crate::address::Address;
use crate::error::Error;
use crate::instruction::{metas_view, readonly, writable, AccountMeta, Instruction};
use vstd::bytes::{spec_u64_to_le_bytes, u64_to_le_bytes};
use vstd::prelude::*;

verus! {

/// The AMM's `buy` arguments.
#[derive(Clone, Copy, Debug, PartialEq, Eq, Structural)]
pub struct Buy {
    pub base_amount_out: u64,
    pub max_quote_amount_in: u64,
}

/// The discriminator of the AMM's `buy` instruction.
pub open spec fn buy_discriminator() -> Seq<u8> {
    seq![102u8, 6, 61, 18, 1, 218, 235, 234]
}

/// The payload of the AMM's `buy` instruction.
pub open spec fn buy_data(b: Buy) -> Seq<u8> {
    buy_discriminator() + spec_u64_to_le_bytes(b.base_amount_out) + spec_u64_to_le_bytes(
        b.max_quote_amount_in,
    )
}

/// The keys that a `buy` references, in the order that the AMM reads them.
pub struct BuyAccounts {
    pub pool: Address,
    pub user: Address,
    pub global_config: Address,
    pub base: Address,
    pub quote: Address,
    pub user_base_ata: Address,
    pub user_quote_ata: Address,
    pub pool_base_ata: Address,
    pub pool_quote_ata: Address,
    pub protocol_fee_recipient: Address,
    pub protocol_fee_recipient_ata: Address,
    pub base_token_program: Address,
    pub quote_token_program: Address,
    pub system_program: Address,
    pub associated_token_program: Address,
    pub event_authority: Address,
    pub pumpfun_program: Address,
    pub coin_creator_vault_ata: Address,
    pub coin_creator_vault_authority: Address,
    pub global_volume_accumulator: Address,
    pub user_volume_accumulator: Address,
}

/// The 21 account references of a `buy`, with the flags the AMM expects:
/// the user signs; the token accounts, the fee accounts and the volume
/// accumulators are written.
pub open spec fn buy_accounts(a: BuyAccounts) -> Seq<(Seq<u8>, bool, bool)> {
    seq![
        readonly(a.pool@, false),
        writable(a.user@, true),
        readonly(a.global_config@, false),
        readonly(a.base@, false),
        readonly(a.quote@, false),
        writable(a.user_base_ata@, false),
        writable(a.user_quote_ata@, false),
        writable(a.pool_base_ata@, false),
        writable(a.pool_quote_ata@, false),
        readonly(a.protocol_fee_recipient@, false),
        writable(a.protocol_fee_recipient_ata@, false),
        readonly(a.base_token_program@, false),
        readonly(a.quote_token_program@, false),
        readonly(a.system_program@, false),
        readonly(a.associated_token_program@, false),
        readonly(a.event_authority@, false),
        readonly(a.pumpfun_program@, false),
        writable(a.coin_creator_vault_ata@, false),
        readonly(a.coin_creator_vault_authority@, false),
        writable(a.global_volume_accumulator@, false),
        writable(a.user_volume_accumulator@, false),
    ]
}

/// Appends the little-endian bytes of `x`.
pub(crate) fn push_u64(data: &mut Vec<u8>, x: u64)
    ensures
        final(data)@ == old(data)@ + spec_u64_to_le_bytes(x),
{
    let mut bytes = u64_to_le_bytes(x);
    data.append(&mut bytes);
}

/// Builds the AMM's `buy` instruction. It always succeeds.
pub fn buy(
    pool: &Address,
    user: &Address,
    global_config: &Address,
    base: &Address,
    quote: &Address,
    user_base_ata: &Address,
    user_quote_ata: &Address,
    pool_base_ata: &Address,
    pool_quote_ata: &Address,
    protocol_fee_recipient: &Address,
    protocol_fee_recipient_ata: &Address,
    base_token_program: &Address,
    quote_token_program: &Address,
    system_program: &Address,
    associated_token_program: &Address,
    event_authority: &Address,
    pumpfun_program: &Address,
    coin_creator_vault_ata: &Address,
    coin_creator_vault_authority: &Address,
    global_volume_accumulator: &Address,
    user_volume_accumulator: &Address,
    instruction: Buy,
) -> (r: Result<Instruction, Error>)
    ensures
        r matches Ok(ix) && ix.program_id == *pumpfun_program && ix.data@ == buy_data(instruction)
            && metas_view(ix.accounts@) == buy_accounts(
            (BuyAccounts {
                pool: *pool,
                user: *user,
                global_config: *global_config,
                base: *base,
                quote: *quote,
                user_base_ata: *user_base_ata,
                user_quote_ata: *user_quote_ata,
                pool_base_ata: *pool_base_ata,
                pool_quote_ata: *pool_quote_ata,
                protocol_fee_recipient: *protocol_fee_recipient,
                protocol_fee_recipient_ata: *protocol_fee_recipient_ata,
                base_token_program: *base_token_program,
                quote_token_program: *quote_token_program,
                system_program: *system_program,
                associated_token_program: *associated_token_program,
                event_authority: *event_authority,
                pumpfun_program: *pumpfun_program,
                coin_creator_vault_ata: *coin_creator_vault_ata,
                coin_creator_vault_authority: *coin_creator_vault_authority,
                global_volume_accumulator: *global_volume_accumulator,
                user_volume_accumulator: *user_volume_accumulator,
            }),
        ),
{
    let accounts = vec![
        AccountMeta::new_readonly(*pool, false),
        AccountMeta::new(*user, true),
        AccountMeta::new_readonly(*global_config, false),
        AccountMeta::new_readonly(*base, false),
        AccountMeta::new_readonly(*quote, false),
        AccountMeta::new(*user_base_ata, false),
        AccountMeta::new(*user_quote_ata, false),
        AccountMeta::new(*pool_base_ata, false),
        AccountMeta::new(*pool_quote_ata, false),
        AccountMeta::new_readonly(*protocol_fee_recipient, false),
        AccountMeta::new(*protocol_fee_recipient_ata, false),
        AccountMeta::new_readonly(*base_token_program, false),
        AccountMeta::new_readonly(*quote_token_program, false),
        AccountMeta::new_readonly(*system_program, false),
        AccountMeta::new_readonly(*associated_token_program, false),
        AccountMeta::new_readonly(*event_authority, false),
        AccountMeta::new_readonly(*pumpfun_program, false),
        AccountMeta::new(*coin_creator_vault_ata, false),
        AccountMeta::new_readonly(*coin_creator_vault_authority, false),
        AccountMeta::new(*global_volume_accumulator, false),
        AccountMeta::new(*user_volume_accumulator, false),
    ];
    let mut data: Vec<u8> = vec![102, 6, 61, 18, 1, 218, 235, 234];
    assert(data@ =~= buy_discriminator());
    push_u64(&mut data, instruction.base_amount_out);
    push_u64(&mut data, instruction.max_quote_amount_in);
    let ix = Instruction { program_id: *pumpfun_program, accounts, data };
    proof {
        let a = BuyAccounts {
            pool: *pool,
            user: *user,
            global_config: *global_config,
            base: *base,
            quote: *quote,
            user_base_ata: *user_base_ata,
            user_quote_ata: *user_quote_ata,
            pool_base_ata: *pool_base_ata,
            pool_quote_ata: *pool_quote_ata,
            protocol_fee_recipient: *protocol_fee_recipient,
            protocol_fee_recipient_ata: *protocol_fee_recipient_ata,
            base_token_program: *base_token_program,
            quote_token_program: *quote_token_program,
            system_program: *system_program,
            associated_token_program: *associated_token_program,
            event_authority: *event_authority,
            pumpfun_program: *pumpfun_program,
            coin_creator_vault_ata: *coin_creator_vault_ata,
            coin_creator_vault_authority: *coin_creator_vault_authority,
            global_volume_accumulator: *global_volume_accumulator,
            user_volume_accumulator: *user_volume_accumulator,
        };
        assert(metas_view(ix.accounts@) =~= buy_accounts(a));
        assert(ix.data@ =~= buy_data(instruction));
    }
    Ok(ix)
}

} // verus!
