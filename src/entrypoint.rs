//! This program's own instruction and the decisions of a swap: which
//! accounts, which checks, what price and what instruction to hand on. The
//! runtime reads the accounts and runs the resulting instruction.

use crate::address::Address;
use crate::error::{error_code, Error, ProgramError};
use crate::instruction::{metas_view, Instruction};
use crate::pricing::{apply_slippage, min_out, swap_out, PoolData};
use crate::pumpfun_cpi::{buy, buy_accounts, buy_data, push_u64, Buy, BuyAccounts};
use crate::state::{global_config_encoded_by, pool_encoded_by, u64_at, GLOBAL_CONFIG_ACCOUNT_LEN, POOL_ACCOUNT_LEN};
use vstd::bytes::spec_u64_to_le_bytes;
use vstd::prelude::*;
use vstd::slice::slice_subrange;

verus! {

/// The arguments of a swap: the quote amount to spend and the slippage
/// tolerance in basis points.
#[derive(Clone, Copy, Debug, PartialEq, Eq, Structural)]
pub struct BuyInstruction {
    /// The quote amount offered, passed on as the most the AMM may take.
    pub input_amount: u64,
    pub slippage_bps: u64,
}

impl BuyInstruction {
    pub fn new(input_amount: u64, slippage_bps: u64) -> (r: BuyInstruction)
        ensures
            r == (BuyInstruction { input_amount, slippage_bps }),
    {
        BuyInstruction { input_amount, slippage_bps }
    }
}

/// The instructions of this program.
#[derive(Clone, Copy, Debug, PartialEq, Eq, Structural)]
pub enum Instructions {
    ExecuteSwap(BuyInstruction),
}

/// The outcome of a swap.
#[derive(Clone, Copy, Debug, PartialEq, Eq, Structural)]
pub struct SwapPerformed {
    pub input_amount: u64,
    pub output_amount: u64,
}

/// An account as the runtime hands it over: its key, whether it signed, its
/// balance and its data.
#[derive(Clone, Debug)]
pub struct AccountInput {
    pub key: Address,
    pub is_signer: bool,
    pub lamports: u64,
    pub data: Vec<u8>,
}

/// The encoding of an instruction: a variant byte, then its fields.
pub open spec fn instruction_bytes(i: Instructions) -> Seq<u8> {
    match i {
        Instructions::ExecuteSwap(b) => seq![0u8] + spec_u64_to_le_bytes(b.input_amount)
            + spec_u64_to_le_bytes(b.slippage_bps),
    }
}

impl Instructions {
    /// Decodes an instruction; the data must hold exactly one.
    pub fn try_from_slice(data: &[u8]) -> (r: Result<Instructions, ProgramError>)
        ensures
            r is Ok <==> data@.len() == 17 && data@[0] == 0,
            r is Err ==> r == Err::<Instructions, ProgramError>(ProgramError::BorshIoError),
            r matches Ok(Instructions::ExecuteSwap(b)) ==> b.input_amount == u64_at(data@, 1)
                && b.slippage_bps == u64_at(data@, 9),
    {
        if data.len() != 17 || data[0] != 0 {
            return Err(ProgramError::BorshIoError);
        }
        let input_amount = vstd::bytes::u64_from_le_bytes(slice_subrange(data, 1, 9));
        let slippage_bps = vstd::bytes::u64_from_le_bytes(slice_subrange(data, 9, 17));
        Ok(Instructions::ExecuteSwap(BuyInstruction { input_amount, slippage_bps }))
    }

    /// Encodes the instruction.
    pub fn to_bytes(&self) -> (r: Vec<u8>)
        ensures
            r@ == instruction_bytes(*self),
    {
        match self {
            Instructions::ExecuteSwap(b) => {
                let mut data: Vec<u8> = vec![0];
                push_u64(&mut data, b.input_amount);
                push_u64(&mut data, b.slippage_bps);
                assert(data@ =~= instruction_bytes(*self));
                data
            },
        }
    }
}

/// The fee total that a global-configuration account's data records.
pub open spec fn recorded_fee_bps(global_config: Seq<u8>) -> int {
    u64_at(global_config, 40) + u64_at(global_config, 48) + u64_at(global_config, 313)
}

/// The keys of the 21 accounts of a swap, in order.
pub open spec fn swap_keys(a: Seq<AccountInput>) -> BuyAccounts {
    BuyAccounts {
        pool: a[0].key,
        user: a[1].key,
        global_config: a[2].key,
        base: a[3].key,
        quote: a[4].key,
        user_base_ata: a[5].key,
        user_quote_ata: a[6].key,
        pool_base_ata: a[7].key,
        pool_quote_ata: a[8].key,
        protocol_fee_recipient: a[9].key,
        protocol_fee_recipient_ata: a[10].key,
        base_token_program: a[11].key,
        quote_token_program: a[12].key,
        system_program: a[13].key,
        associated_token_program: a[14].key,
        event_authority: a[15].key,
        pumpfun_program: a[16].key,
        coin_creator_vault_ata: a[17].key,
        coin_creator_vault_authority: a[18].key,
        global_volume_accumulator: a[19].key,
        user_volume_accumulator: a[20].key,
    }
}

/// What a swap over `a` with `ins` yields: the error, or the minimum output
/// that the AMM's `buy` is asked for.
pub open spec fn swap_result(a: Seq<AccountInput>, ins: BuyInstruction) -> Result<u64, Error> {
    if a.len() < 21 {
        Err(Error::ProgramError(ProgramError::NotEnoughAccountKeys))
    } else if !a[1].is_signer {
        Err(Error::ProgramError(ProgramError::MissingRequiredSignature))
    } else if ins.slippage_bps >= 10000 {
        Err(Error::SlippageTooHigh)
    } else if a[0].data@.len() < POOL_ACCOUNT_LEN || a[2].data@.len() < GLOBAL_CONFIG_ACCOUNT_LEN {
        Err(Error::ProgramError(ProgramError::InvalidArgument))
    } else {
        match swap_out(
            a[7].lamports as int,
            a[8].lamports as int,
            recorded_fee_bps(a[2].data@),
            ins.input_amount as int,
        ) {
            None => Err(Error::ProgramError(ProgramError::ArithmeticOverflow)),
            Some(o) => Ok(min_out(o, ins.slippage_bps as int) as u64),
        }
    }
}

/// A decoded configuration has the fees that its data records.
proof fn lemma_recorded_fees(d: PoolData, global_config: Seq<u8>)
    requires
        global_config.len() >= GLOBAL_CONFIG_ACCOUNT_LEN,
        global_config_encoded_by(d.global_config, global_config.subrange(8, 353)),
    ensures
        total_fee_matches(d, global_config),
{
    let s = global_config.subrange(8, 353);
    assert(s.subrange(32, 40) =~= global_config.subrange(40, 48));
    assert(s.subrange(40, 48) =~= global_config.subrange(48, 56));
    assert(s.subrange(305, 313) =~= global_config.subrange(313, 321));
}

/// Reads the pool from the first four accounts: the pool, the global
/// configuration and the pool's base and quote token accounts.
pub fn read_pool(accounts: &[AccountInput]) -> (r: Result<PoolData, Error>)
    ensures
        accounts@.len() < 4 ==> r == Err::<PoolData, Error>(
            Error::ProgramError(ProgramError::NotEnoughAccountKeys),
        ),
        accounts@.len() >= 4 ==> (r is Ok <==> (accounts@[0].data@.len() >= POOL_ACCOUNT_LEN
            && accounts@[1].data@.len() >= GLOBAL_CONFIG_ACCOUNT_LEN)),
        accounts@.len() >= 4 ==> (r matches Ok(d) ==> {
            &&& pool_encoded_by(d.pool, accounts@[0].data@.subrange(8, 243))
            &&& global_config_encoded_by(d.global_config, accounts@[1].data@.subrange(8, 353))
            &&& d.reserve_base == accounts@[2].lamports
            &&& d.reserve_quote == accounts@[3].lamports
        }),
        accounts@.len() >= 4 && r is Err ==> r == Err::<PoolData, Error>(
            Error::ProgramError(ProgramError::InvalidArgument),
        ),
{
    if accounts.len() < 4 {
        return Err(Error::ProgramError(ProgramError::NotEnoughAccountKeys));
    }
    PoolData::new(
        accounts[0].data.as_slice(),
        accounts[1].data.as_slice(),
        accounts[2].lamports,
        accounts[3].lamports,
    )
}

/// The pool's fees are those that the configuration data records.
pub open spec fn total_fee_matches(d: PoolData, global_config: Seq<u8>) -> bool {
    crate::pricing::total_fee_bps(d.global_config) == recorded_fee_bps(global_config)
}

/// Decides a swap: checks the user's signature and the slippage bound,
/// decodes the pool, prices the input, takes the slippage off and builds the
/// AMM's `buy` over the same 21 accounts.
pub fn execute_swap(accounts: &[AccountInput], instruction: BuyInstruction) -> (r: Result<
    (Instruction, SwapPerformed),
    Error,
>)
    ensures
        match swap_result(accounts@, instruction) {
            Err(e) => r == Err::<(Instruction, SwapPerformed), Error>(e),
            Ok(out) => r matches Ok((ix, performed)) && performed == (SwapPerformed {
                input_amount: instruction.input_amount,
                output_amount: out,
            }) && ix.program_id == accounts@[16].key && metas_view(ix.accounts@) == buy_accounts(
                swap_keys(accounts@),
            ) && ix.data@ == buy_data(
                Buy { base_amount_out: out, max_quote_amount_in: instruction.input_amount },
            ),
        },
{
    if accounts.len() < 21 {
        return Err(Error::ProgramError(ProgramError::NotEnoughAccountKeys));
    }
    if !accounts[1].is_signer {
        return Err(Error::ProgramError(ProgramError::MissingRequiredSignature));
    }
    if instruction.slippage_bps >= 10_000 {
        return Err(Error::SlippageTooHigh);
    }
    let pool_state = PoolData::new(
        accounts[0].data.as_slice(),
        accounts[2].data.as_slice(),
        accounts[7].lamports,
        accounts[8].lamports,
    )?;
    proof {
        lemma_recorded_fees(pool_state, accounts@[2].data@);
    }
    let base_out = match pool_state.base_out(instruction.input_amount) {
        Ok(o) => o,
        Err(e) => return Err(Error::ProgramError(e)),
    };
    let base_out = apply_slippage(base_out, instruction.slippage_bps)?;
    let instruction_out = Buy {
        base_amount_out: base_out,
        max_quote_amount_in: instruction.input_amount,
    };
    let ix = buy(
        &accounts[0].key,
        &accounts[1].key,
        &accounts[2].key,
        &accounts[3].key,
        &accounts[4].key,
        &accounts[5].key,
        &accounts[6].key,
        &accounts[7].key,
        &accounts[8].key,
        &accounts[9].key,
        &accounts[10].key,
        &accounts[11].key,
        &accounts[12].key,
        &accounts[13].key,
        &accounts[14].key,
        &accounts[15].key,
        &accounts[16].key,
        &accounts[17].key,
        &accounts[18].key,
        &accounts[19].key,
        &accounts[20].key,
        instruction_out,
    )?;
    Ok((ix, SwapPerformed { input_amount: instruction.input_amount, output_amount: base_out }))
}

/// Decodes this program's instruction and decides it; errors are reported as
/// runtime error codes.
pub fn process_instruction(accounts: &[AccountInput], instruction_data: &[u8]) -> (r: Result<
    (Instruction, SwapPerformed),
    ProgramError,
>)
    ensures
        instruction_data@.len() != 17 || instruction_data@[0] != 0 ==> r == Err::<
            (Instruction, SwapPerformed),
            ProgramError,
        >(ProgramError::BorshIoError),
        instruction_data@.len() == 17 && instruction_data@[0] == 0 ==> {
            let ins = BuyInstruction {
                input_amount: u64_at(instruction_data@, 1),
                slippage_bps: u64_at(instruction_data@, 9),
            };
            match swap_result(accounts@, ins) {
                Err(e) => r == Err::<(Instruction, SwapPerformed), ProgramError>(
                    error_code(e),
                ),
                Ok(out) => r matches Ok((ix, performed)) && performed == (SwapPerformed {
                    input_amount: ins.input_amount,
                    output_amount: out,
                }) && ix.program_id == accounts@[16].key && metas_view(ix.accounts@)
                    == buy_accounts(swap_keys(accounts@)) && ix.data@ == buy_data(
                    Buy { base_amount_out: out, max_quote_amount_in: ins.input_amount },
                ),
            }
        },
{
    let instruction = Instructions::try_from_slice(instruction_data)?;
    match instruction {
        Instructions::ExecuteSwap(instruction) => match execute_swap(accounts, instruction) {
            Ok(r) => Ok(r),
            Err(e) => Err(e.into_program_error()),
        },
    }
}

} // verus!
