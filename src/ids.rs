//! Well-known addresses of the programs and accounts that the encoders
//! reference: a read-only table of configuration values.

use crate::address::Address;
use vstd::prelude::*;

verus! {

/// The bytes of the address of the pump fun launchpad program.
pub open spec fn pump_fun_launchpad_program_bytes() -> Seq<u8> {
    seq![
        1u8, 86, 224, 246, 147, 102, 90, 207, 68, 219, 21, 104, 191, 23, 91, 170, 81, 137, 203,
        151, 245, 210, 255, 59, 101, 93, 43, 182, 253, 109, 24, 176,
    ]
}

/// The launchpad (bonding-curve) program.
pub fn pump_fun_launchpad_program() -> (r: Address)
    ensures
        r@ == pump_fun_launchpad_program_bytes(),
{
    let r = Address {
        bytes: [
            1, 86, 224, 246, 147, 102, 90, 207, 68, 219, 21, 104, 191, 23, 91, 170, 81, 137, 203,
            151, 245, 210, 255, 59, 101, 93, 43, 182, 253, 109, 24, 176,
        ],
    };
    assert(r@ =~= pump_fun_launchpad_program_bytes());
    r
}

/// The bytes of the address of the pumpfun amm program.
pub open spec fn pumpfun_amm_program_bytes() -> Seq<u8> {
    seq![
        12u8, 20, 222, 252, 130, 94, 198, 118, 148, 37, 8, 24, 187, 101, 64, 101, 244, 41, 141,
        49, 86, 213, 113, 180, 212, 248, 9, 12, 24, 233, 168, 99,
    ]
}

/// The AMM program.
pub fn pumpfun_amm_program() -> (r: Address)
    ensures
        r@ == pumpfun_amm_program_bytes(),
{
    let r = Address {
        bytes: [
            12, 20, 222, 252, 130, 94, 198, 118, 148, 37, 8, 24, 187, 101, 64, 101, 244, 41, 141,
            49, 86, 213, 113, 180, 212, 248, 9, 12, 24, 233, 168, 99,
        ],
    };
    assert(r@ =~= pumpfun_amm_program_bytes());
    r
}

/// The bytes of the address of the pump fun mint authority.
pub open spec fn pump_fun_mint_authority_bytes() -> Seq<u8> {
    seq![
        6u8, 197, 193, 206, 99, 141, 37, 103, 210, 100, 104, 176, 94, 185, 81, 209, 162, 141, 204,
        110, 18, 52, 130, 181, 198, 117, 20, 151, 112, 230, 43, 242,
    ]
}

/// The launchpad's mint authority.
pub fn pump_fun_mint_authority() -> (r: Address)
    ensures
        r@ == pump_fun_mint_authority_bytes(),
{
    let r = Address {
        bytes: [
            6, 197, 193, 206, 99, 141, 37, 103, 210, 100, 104, 176, 94, 185, 81, 209, 162, 141,
            204, 110, 18, 52, 130, 181, 198, 117, 20, 151, 112, 230, 43, 242,
        ],
    };
    assert(r@ =~= pump_fun_mint_authority_bytes());
    r
}

/// The bytes of the address of the pump fun global config.
pub open spec fn pump_fun_global_config_bytes() -> Seq<u8> {
    seq![
        137u8, 11, 166, 68, 254, 31, 85, 170, 25, 241, 28, 210, 210, 236, 20, 211, 35, 59, 110,
        10, 75, 234, 238, 247, 43, 105, 133, 142, 33, 225, 112, 214,
    ]
}

/// The AMM's global configuration account.
pub fn pump_fun_global_config() -> (r: Address)
    ensures
        r@ == pump_fun_global_config_bytes(),
{
    let r = Address {
        bytes: [
            137, 11, 166, 68, 254, 31, 85, 170, 25, 241, 28, 210, 210, 236, 20, 211, 35, 59, 110,
            10, 75, 234, 238, 247, 43, 105, 133, 142, 33, 225, 112, 214,
        ],
    };
    assert(r@ =~= pump_fun_global_config_bytes());
    r
}

/// The bytes of the address of the pump fun launchpad event authority.
pub open spec fn pump_fun_launchpad_event_authority_bytes() -> Seq<u8> {
    seq![
        172u8, 241, 54, 235, 1, 252, 28, 78, 136, 61, 35, 200, 181, 132, 74, 181, 154, 55, 246,
        106, 221, 87, 197, 233, 172, 59, 83, 224, 89, 211, 92, 100,
    ]
}

/// The launchpad's event authority.
pub fn pump_fun_launchpad_event_authority() -> (r: Address)
    ensures
        r@ == pump_fun_launchpad_event_authority_bytes(),
{
    let r = Address {
        bytes: [
            172, 241, 54, 235, 1, 252, 28, 78, 136, 61, 35, 200, 181, 132, 74, 181, 154, 55, 246,
            106, 221, 87, 197, 233, 172, 59, 83, 224, 89, 211, 92, 100,
        ],
    };
    assert(r@ =~= pump_fun_launchpad_event_authority_bytes());
    r
}

/// The bytes of the address of the pump fun amm event authority.
pub open spec fn pump_fun_amm_event_authority_bytes() -> Seq<u8> {
    seq![
        229u8, 74, 112, 149, 40, 131, 159, 97, 192, 185, 184, 96, 121, 137, 28, 19, 146, 22, 228,
        122, 113, 182, 47, 183, 59, 236, 114, 22, 148, 88, 116, 94,
    ]
}

/// The AMM's event authority.
pub fn pump_fun_amm_event_authority() -> (r: Address)
    ensures
        r@ == pump_fun_amm_event_authority_bytes(),
{
    let r = Address {
        bytes: [
            229, 74, 112, 149, 40, 131, 159, 97, 192, 185, 184, 96, 121, 137, 28, 19, 146, 22,
            228, 122, 113, 182, 47, 183, 59, 236, 114, 22, 148, 88, 116, 94,
        ],
    };
    assert(r@ =~= pump_fun_amm_event_authority_bytes());
    r
}

/// The bytes of the address of the pump fun launchpad global volume accumulator.
pub open spec fn pump_fun_launchpad_global_volume_accumulator_bytes() -> Seq<u8> {
    seq![
        250u8, 9, 17, 165, 72, 99, 65, 45, 99, 31, 78, 7, 135, 3, 41, 108, 3, 95, 13, 19, 51, 160,
        217, 200, 131, 141, 115, 183, 16, 254, 110, 45,
    ]
}

/// The launchpad's global volume accumulator.
pub fn pump_fun_launchpad_global_volume_accumulator() -> (r: Address)
    ensures
        r@ == pump_fun_launchpad_global_volume_accumulator_bytes(),
{
    let r = Address {
        bytes: [
            250, 9, 17, 165, 72, 99, 65, 45, 99, 31, 78, 7, 135, 3, 41, 108, 3, 95, 13, 19, 51,
            160, 217, 200, 131, 141, 115, 183, 16, 254, 110, 45,
        ],
    };
    assert(r@ =~= pump_fun_launchpad_global_volume_accumulator_bytes());
    r
}

/// The bytes of the address of the pump fun amm global volume accumulator.
pub open spec fn pump_fun_amm_global_volume_accumulator_bytes() -> Seq<u8> {
    seq![
        163u8, 215, 187, 18, 126, 88, 173, 193, 44, 166, 143, 131, 67, 126, 194, 225, 195, 249,
        130, 13, 233, 62, 88, 249, 23, 138, 41, 24, 221, 170, 247, 180,
    ]
}

/// The AMM's global volume accumulator.
pub fn pump_fun_amm_global_volume_accumulator() -> (r: Address)
    ensures
        r@ == pump_fun_amm_global_volume_accumulator_bytes(),
{
    let r = Address {
        bytes: [
            163, 215, 187, 18, 126, 88, 173, 193, 44, 166, 143, 131, 67, 126, 194, 225, 195, 249,
            130, 13, 233, 62, 88, 249, 23, 138, 41, 24, 221, 170, 247, 180,
        ],
    };
    assert(r@ =~= pump_fun_amm_global_volume_accumulator_bytes());
    r
}

/// The bytes of the address of the pump fun amm coin creator vault authority.
pub open spec fn pump_fun_amm_coin_creator_vault_authority_bytes() -> Seq<u8> {
    seq![
        109u8, 101, 144, 67, 186, 165, 42, 24, 27, 88, 68, 35, 158, 141, 84, 45, 31, 222, 220,
        214, 129, 206, 126, 113, 208, 117, 41, 218, 201, 110, 38, 173,
    ]
}

/// The AMM's coin-creator vault authority for pools whose coin creator is the
/// system program.
pub fn pump_fun_amm_coin_creator_vault_authority() -> (r: Address)
    ensures
        r@ == pump_fun_amm_coin_creator_vault_authority_bytes(),
{
    let r = Address {
        bytes: [
            109, 101, 144, 67, 186, 165, 42, 24, 27, 88, 68, 35, 158, 141, 84, 45, 31, 222, 220,
            214, 129, 206, 126, 113, 208, 117, 41, 218, 201, 110, 38, 173,
        ],
    };
    assert(r@ =~= pump_fun_amm_coin_creator_vault_authority_bytes());
    r
}

/// The bytes of the address of the pump fun launchpad fee recipient.
pub open spec fn pump_fun_launchpad_fee_recipient_bytes() -> Seq<u8> {
    seq![
        76u8, 85, 25, 233, 135, 100, 18, 184, 82, 202, 247, 34, 164, 40, 29, 205, 107, 132, 106,
        10, 18, 117, 209, 58, 162, 150, 146, 36, 232, 91, 101, 177,
    ]
}

/// The launchpad's fee recipient.
pub fn pump_fun_launchpad_fee_recipient() -> (r: Address)
    ensures
        r@ == pump_fun_launchpad_fee_recipient_bytes(),
{
    let r = Address {
        bytes: [
            76, 85, 25, 233, 135, 100, 18, 184, 82, 202, 247, 34, 164, 40, 29, 205, 107, 132, 106,
            10, 18, 117, 209, 58, 162, 150, 146, 36, 232, 91, 101, 177,
        ],
    };
    assert(r@ =~= pump_fun_launchpad_fee_recipient_bytes());
    r
}

/// The bytes of the address of the pump fun amm fee recipient.
pub open spec fn pump_fun_amm_fee_recipient_bytes() -> Seq<u8> {
    seq![
        0u8, 107, 112, 233, 106, 17, 127, 226, 47, 15, 98, 60, 68, 61, 152, 105, 188, 234, 209, 3,
        216, 63, 32, 150, 204, 197, 173, 72, 18, 194, 183, 34,
    ]
}

/// A protocol fee recipient of the AMM's global configuration (may differ
/// between clusters).
pub fn pump_fun_amm_fee_recipient() -> (r: Address)
    ensures
        r@ == pump_fun_amm_fee_recipient_bytes(),
{
    let r = Address {
        bytes: [
            0, 107, 112, 233, 106, 17, 127, 226, 47, 15, 98, 60, 68, 61, 152, 105, 188, 234, 209,
            3, 216, 63, 32, 150, 204, 197, 173, 72, 18, 194, 183, 34,
        ],
    };
    assert(r@ =~= pump_fun_amm_fee_recipient_bytes());
    r
}

/// The bytes of the address of the global.
pub open spec fn global_bytes() -> Seq<u8> {
    seq![
        58u8, 134, 94, 105, 238, 15, 84, 128, 202, 188, 246, 99, 87, 228, 220, 47, 24, 213, 141,
        69, 193, 234, 116, 137, 251, 55, 35, 217, 121, 60, 114, 166,
    ]
}

/// The launchpad's global state account.
pub fn global() -> (r: Address)
    ensures
        r@ == global_bytes(),
{
    let r = Address {
        bytes: [
            58, 134, 94, 105, 238, 15, 84, 128, 202, 188, 246, 99, 87, 228, 220, 47, 24, 213, 141,
            69, 193, 234, 116, 137, 251, 55, 35, 217, 121, 60, 114, 166,
        ],
    };
    assert(r@ =~= global_bytes());
    r
}

/// The bytes of the address of the mpl token program.
pub open spec fn mpl_token_program_bytes() -> Seq<u8> {
    seq![
        11u8, 112, 101, 177, 227, 209, 124, 69, 56, 157, 82, 127, 107, 4, 195, 205, 88, 184, 108,
        115, 26, 160, 253, 181, 73, 182, 209, 188, 3, 248, 41, 70,
    ]
}

/// The token metadata program.
pub fn mpl_token_program() -> (r: Address)
    ensures
        r@ == mpl_token_program_bytes(),
{
    let r = Address {
        bytes: [
            11, 112, 101, 177, 227, 209, 124, 69, 56, 157, 82, 127, 107, 4, 195, 205, 88, 184,
            108, 115, 26, 160, 253, 181, 73, 182, 209, 188, 3, 248, 41, 70,
        ],
    };
    assert(r@ =~= mpl_token_program_bytes());
    r
}

/// The bytes of the address of the metadata program.
pub open spec fn metadata_program_bytes() -> Seq<u8> {
    seq![
        11u8, 112, 101, 177, 227, 209, 124, 69, 56, 157, 82, 127, 107, 4, 195, 205, 88, 184, 108,
        115, 26, 160, 253, 181, 73, 182, 209, 188, 3, 248, 41, 70,
    ]
}

/// The token metadata program, as owner of metadata accounts.
pub fn metadata_program() -> (r: Address)
    ensures
        r@ == metadata_program_bytes(),
{
    let r = Address {
        bytes: [
            11, 112, 101, 177, 227, 209, 124, 69, 56, 157, 82, 127, 107, 4, 195, 205, 88, 184,
            108, 115, 26, 160, 253, 181, 73, 182, 209, 188, 3, 248, 41, 70,
        ],
    };
    assert(r@ =~= metadata_program_bytes());
    r
}

/// The bytes of the address of the system program.
pub open spec fn system_program_bytes() -> Seq<u8> {
    seq![
        0u8, 0, 0, 0, 0, 0, 0, 0, 0, 0, 0, 0, 0, 0, 0, 0, 0, 0, 0, 0, 0, 0, 0, 0, 0, 0, 0, 0, 0,
        0, 0, 0,
    ]
}

/// The system program.
pub fn system_program() -> (r: Address)
    ensures
        r@ == system_program_bytes(),
{
    let r = Address {
        bytes: [
            0, 0, 0, 0, 0, 0, 0, 0, 0, 0, 0, 0, 0, 0, 0, 0, 0, 0, 0, 0, 0, 0, 0, 0, 0, 0, 0, 0, 0,
            0, 0, 0,
        ],
    };
    assert(r@ =~= system_program_bytes());
    r
}

/// The bytes of the address of the token program.
pub open spec fn token_program_bytes() -> Seq<u8> {
    seq![
        6u8, 221, 246, 225, 215, 101, 161, 147, 217, 203, 225, 70, 206, 235, 121, 172, 28, 180,
        133, 237, 95, 91, 55, 145, 58, 140, 245, 133, 126, 255, 0, 169,
    ]
}

/// The token program.
pub fn token_program() -> (r: Address)
    ensures
        r@ == token_program_bytes(),
{
    let r = Address {
        bytes: [
            6, 221, 246, 225, 215, 101, 161, 147, 217, 203, 225, 70, 206, 235, 121, 172, 28, 180,
            133, 237, 95, 91, 55, 145, 58, 140, 245, 133, 126, 255, 0, 169,
        ],
    };
    assert(r@ =~= token_program_bytes());
    r
}

/// The bytes of the address of the token 2022 program.
pub open spec fn token_2022_program_bytes() -> Seq<u8> {
    seq![
        6u8, 221, 246, 225, 238, 117, 143, 222, 24, 66, 93, 188, 228, 108, 205, 218, 182, 26, 252,
        77, 131, 185, 13, 39, 254, 189, 249, 40, 216, 161, 139, 252,
    ]
}

/// The token-2022 program.
pub fn token_2022_program() -> (r: Address)
    ensures
        r@ == token_2022_program_bytes(),
{
    let r = Address {
        bytes: [
            6, 221, 246, 225, 238, 117, 143, 222, 24, 66, 93, 188, 228, 108, 205, 218, 182, 26,
            252, 77, 131, 185, 13, 39, 254, 189, 249, 40, 216, 161, 139, 252,
        ],
    };
    assert(r@ =~= token_2022_program_bytes());
    r
}

/// The bytes of the address of the associated token program.
pub open spec fn associated_token_program_bytes() -> Seq<u8> {
    seq![
        140u8, 151, 37, 143, 78, 36, 137, 241, 187, 61, 16, 41, 20, 142, 13, 131, 11, 90, 19, 153,
        218, 255, 16, 132, 4, 142, 123, 216, 219, 233, 248, 89,
    ]
}

/// The associated token account program.
pub fn associated_token_program() -> (r: Address)
    ensures
        r@ == associated_token_program_bytes(),
{
    let r = Address {
        bytes: [
            140, 151, 37, 143, 78, 36, 137, 241, 187, 61, 16, 41, 20, 142, 13, 131, 11, 90, 19,
            153, 218, 255, 16, 132, 4, 142, 123, 216, 219, 233, 248, 89,
        ],
    };
    assert(r@ =~= associated_token_program_bytes());
    r
}

/// The bytes of the address of the rent sysvar.
pub open spec fn rent_sysvar_bytes() -> Seq<u8> {
    seq![
        6u8, 167, 213, 23, 25, 44, 92, 81, 33, 140, 201, 76, 61, 74, 241, 127, 88, 218, 238, 8,
        155, 161, 253, 68, 227, 219, 217, 138, 0, 0, 0, 0,
    ]
}

/// The rent sysvar.
pub fn rent_sysvar() -> (r: Address)
    ensures
        r@ == rent_sysvar_bytes(),
{
    let r = Address {
        bytes: [
            6, 167, 213, 23, 25, 44, 92, 81, 33, 140, 201, 76, 61, 74, 241, 127, 88, 218, 238, 8,
            155, 161, 253, 68, 227, 219, 217, 138, 0, 0, 0, 0,
        ],
    };
    assert(r@ =~= rent_sysvar_bytes());
    r
}

} // verus!
