//! Account references and instructions as handed to the runtime.

use crate::address::Address;
use vstd::prelude::*;

verus! {

/// One account that an instruction references, with its flags.
#[derive(Clone, Copy, Debug)]
pub struct AccountMeta {
    pub pubkey: Address,
    pub is_signer: bool,
    pub is_writable: bool,
}

/// A program to run, the accounts it reads and writes, in order, and its
/// payload.
#[derive(Clone, Debug)]
pub struct Instruction {
    pub program_id: Address,
    pub accounts: Vec<AccountMeta>,
    pub data: Vec<u8>,
}

/// An account reference as (key bytes, is-signer, is-writable).
pub open spec fn meta_view(m: AccountMeta) -> (Seq<u8>, bool, bool) {
    (m.pubkey@, m.is_signer, m.is_writable)
}

/// The views of a list of account references.
pub open spec fn metas_view(ms: Seq<AccountMeta>) -> Seq<(Seq<u8>, bool, bool)> {
    ms.map_values(|m: AccountMeta| meta_view(m))
}

/// A writable reference.
pub open spec fn writable(key: Seq<u8>, signer: bool) -> (Seq<u8>, bool, bool) {
    (key, signer, true)
}

/// A read-only reference.
pub open spec fn readonly(key: Seq<u8>, signer: bool) -> (Seq<u8>, bool, bool) {
    (key, signer, false)
}

impl AccountMeta {
    /// A writable reference to `pubkey`.
    pub fn new(pubkey: Address, is_signer: bool) -> (r: AccountMeta)
        ensures
            meta_view(r) == writable(pubkey@, is_signer),
    {
        AccountMeta { pubkey, is_signer, is_writable: true }
    }

    /// A read-only reference to `pubkey`.
    pub fn new_readonly(pubkey: Address, is_signer: bool) -> (r: AccountMeta)
        ensures
            meta_view(r) == readonly(pubkey@, is_signer),
    {
        AccountMeta { pubkey, is_signer, is_writable: false }
    }
}

} // verus!
