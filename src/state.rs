//! Decoding of the AMM's pool and global-configuration accounts from their
//! fixed little-endian layouts.

use crate::address::Address;
use crate::error::{Error, ProgramError};
use vstd::bytes::{spec_u16_from_le_bytes, spec_u64_from_le_bytes, u16_from_le_bytes, u64_from_le_bytes};
use vstd::prelude::*;
use vstd::slice::slice_subrange;

verus! {

/// Bytes of the account discriminator that precedes every record.
pub const ACCOUNT_HEADER_LEN: usize = 8;

/// The least length of a pool account's data.
pub const POOL_ACCOUNT_LEN: usize = 243;

/// The least length of a global-configuration account's data.
pub const GLOBAL_CONFIG_ACCOUNT_LEN: usize = 353;

/// The AMM's global configuration.
#[derive(Clone, Copy, Debug)]
pub struct PoolGlobalConfig {
    pub admin: Address,
    pub lp_fee_basis_points: u64,
    pub protocol_fee_basis_points: u64,
    pub disable_flags: u8,
    pub protocol_fee_recipients: [Address; 8],
    pub coin_creator_fee_basis_points: u64,
    pub admin_set_coin_creator_authority: Address,
}

/// A pool of the AMM.
#[derive(Clone, Copy, Debug)]
pub struct Pool {
    pub pool_bump: u8,
    pub index: u16,
    pub creator: Address,
    pub base_mint: Address,
    pub quote_mint: Address,
    pub lp_mint: Address,
    pub pool_base_token_account: Address,
    pub pool_quote_token_account: Address,
    pub lp_supply: u64,
    pub coin_creator: Address,
}

/// The 32 bytes at `off`.
pub open spec fn key_at(s: Seq<u8>, off: int) -> Seq<u8> {
    s.subrange(off, off + 32)
}

/// The little-endian 64-bit value at `off`.
pub open spec fn u64_at(s: Seq<u8>, off: int) -> u64 {
    spec_u64_from_le_bytes(s.subrange(off, off + 8))
}

/// `p` is the pool that the record body `s` (header stripped) encodes.
pub open spec fn pool_encoded_by(p: Pool, s: Seq<u8>) -> bool {
    &&& p.pool_bump == s[0]
    &&& p.index == spec_u16_from_le_bytes(s.subrange(1, 3))
    &&& p.creator@ == key_at(s, 3)
    &&& p.base_mint@ == key_at(s, 35)
    &&& p.quote_mint@ == key_at(s, 67)
    &&& p.lp_mint@ == key_at(s, 99)
    &&& p.pool_base_token_account@ == key_at(s, 131)
    &&& p.pool_quote_token_account@ == key_at(s, 163)
    &&& p.lp_supply == u64_at(s, 195)
    &&& p.coin_creator@ == key_at(s, 203)
}

/// `c` is the configuration that the record body `s` (header stripped)
/// encodes.
pub open spec fn global_config_encoded_by(c: PoolGlobalConfig, s: Seq<u8>) -> bool {
    &&& c.admin@ == key_at(s, 0)
    &&& c.lp_fee_basis_points == u64_at(s, 32)
    &&& c.protocol_fee_basis_points == u64_at(s, 40)
    &&& c.disable_flags == s[48]
    &&& forall|i: int| 0 <= i < 8 ==> (#[trigger] c.protocol_fee_recipients[i])@ == key_at(s, 49 + 32 * i)
    &&& c.coin_creator_fee_basis_points == u64_at(s, 305)
    &&& c.admin_set_coin_creator_authority@ == key_at(s, 313)
}

/// The address at `off` in `data`.
fn read_key(data: &[u8], off: usize) -> (r: Address)
    requires
        off + 32 <= data@.len(),
    ensures
        r@ == key_at(data@, off as int),
{
    let len = data.len();
    let mut bytes = [0u8; 32];
    let mut i: usize = 0;
    while i < 32
        invariant
            off + 32 <= len,
            len == data@.len(),
            i <= 32,
            forall|j: int| 0 <= j < i ==> bytes@[j] == data@[off + j],
        decreases 32 - i,
    {
        bytes[i] = data[off + i];
        i = i + 1;
    }
    let r = Address { bytes };
    assert(r@ =~= key_at(data@, off as int));
    r
}

/// The little-endian 64-bit value at `off` in `data`.
fn read_u64(data: &[u8], off: usize) -> (r: u64)
    requires
        off + 8 <= data@.len(),
    ensures
        r == u64_at(data@, off as int),
{
    let len = data.len();
    assert(off + 8 <= len);
    u64_from_le_bytes(slice_subrange(data, off, off + 8))
}

/// Decodes a pool account's data. Data shorter than the layout is rejected
/// before anything is read.
pub fn decode_pool(data: &[u8]) -> (r: Result<Pool, Error>)
    ensures
        data@.len() < POOL_ACCOUNT_LEN <==> r is Err,
        r is Err ==> r == Err::<Pool, Error>(Error::ProgramError(ProgramError::InvalidArgument)),
        r matches Ok(p) ==> pool_encoded_by(p, data@.subrange(8, 243)),
{
    if data.len() < POOL_ACCOUNT_LEN {
        return Err(Error::ProgramError(ProgramError::InvalidArgument));
    }
    let s = slice_subrange(data, ACCOUNT_HEADER_LEN, POOL_ACCOUNT_LEN);
    let p = Pool {
        pool_bump: s[0],
        index: u16_from_le_bytes(slice_subrange(s, 1, 3)),
        creator: read_key(s, 3),
        base_mint: read_key(s, 35),
        quote_mint: read_key(s, 67),
        lp_mint: read_key(s, 99),
        pool_base_token_account: read_key(s, 131),
        pool_quote_token_account: read_key(s, 163),
        lp_supply: read_u64(s, 195),
        coin_creator: read_key(s, 203),
    };
    Ok(p)
}

/// Decodes a global-configuration account's data. Data shorter than the
/// layout is rejected before anything is read.
pub fn decode_global_config(data: &[u8]) -> (r: Result<PoolGlobalConfig, Error>)
    ensures
        data@.len() < GLOBAL_CONFIG_ACCOUNT_LEN <==> r is Err,
        r is Err ==> r == Err::<PoolGlobalConfig, Error>(
            Error::ProgramError(ProgramError::InvalidArgument),
        ),
        r matches Ok(c) ==> global_config_encoded_by(c, data@.subrange(8, 353)),
{
    if data.len() < GLOBAL_CONFIG_ACCOUNT_LEN {
        return Err(Error::ProgramError(ProgramError::InvalidArgument));
    }
    let s = slice_subrange(data, ACCOUNT_HEADER_LEN, GLOBAL_CONFIG_ACCOUNT_LEN);
    let first = read_key(s, 49);
    let mut recipients = [first; 8];
    let mut i: usize = 1;
    while i < 8
        invariant
            s@.len() == 345,
            1 <= i <= 8,
            forall|j: int| 0 <= j < i ==> (#[trigger] recipients[j])@ == key_at(s@, 49 + 32 * j),
        decreases 8 - i,
    {
        recipients[i] = read_key(s, 49 + 32 * i);
        i = i + 1;
    }
    let c = PoolGlobalConfig {
        admin: read_key(s, 0),
        lp_fee_basis_points: read_u64(s, 32),
        protocol_fee_basis_points: read_u64(s, 40),
        disable_flags: s[48],
        protocol_fee_recipients: recipients,
        coin_creator_fee_basis_points: read_u64(s, 305),
        admin_set_coin_creator_authority: read_key(s, 313),
    };
    Ok(c)
}

} // verus!
