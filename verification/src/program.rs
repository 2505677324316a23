//! The fixed program addresses and seed words that derivations use.

use crate::address::Address;
use vstd::prelude::*;

verus! {

/// Bytes of the token program's address.
pub open spec fn token_program_bytes() -> Seq<u8> {
    seq![
        6u8, 221, 246, 225, 215, 101, 161, 147, 217, 203, 225, 70, 206, 235, 121, 172,
        28, 180, 133, 237, 95, 91, 55, 145, 58, 140, 245, 133, 126, 255, 0, 169,
    ]
}

/// Bytes of the 2022 token program's address.
pub open spec fn token_2022_program_bytes() -> Seq<u8> {
    seq![
        6u8, 221, 246, 225, 238, 117, 143, 222, 24, 66, 93, 188, 228, 108, 205, 218,
        182, 26, 252, 77, 131, 185, 13, 39, 254, 189, 249, 40, 216, 161, 139, 252,
    ]
}

/// Bytes of the memo program's address.
pub open spec fn memo_program_bytes() -> Seq<u8> {
    seq![
        5u8, 74, 83, 90, 153, 41, 33, 6, 77, 36, 232, 113, 96, 218, 56, 124,
        124, 53, 181, 221, 188, 146, 187, 129, 228, 31, 168, 64, 65, 5, 68, 141,
    ]
}

/// Bytes of the associated-token-account program's address.
pub open spec fn associated_token_program_bytes() -> Seq<u8> {
    seq![
        140u8, 151, 37, 143, 78, 36, 137, 241, 187, 61, 16, 41, 20, 142, 13, 131,
        11, 90, 19, 153, 218, 255, 16, 132, 4, 142, 123, 216, 219, 233, 248, 89,
    ]
}

/// Bytes of the system program's address.
pub open spec fn system_program_bytes() -> Seq<u8> {
    seq![
        0u8, 0, 0, 0, 0, 0, 0, 0, 0, 0, 0, 0, 0, 0, 0, 0,
        0, 0, 0, 0, 0, 0, 0, 0, 0, 0, 0, 0, 0, 0, 0, 0,
    ]
}

/// Bytes of the rent sysvar's address.
pub open spec fn rent_sysvar_bytes() -> Seq<u8> {
    seq![
        6u8, 167, 213, 23, 25, 44, 92, 81, 33, 140, 201, 76, 61, 74, 241, 127,
        88, 218, 238, 8, 155, 161, 253, 68, 227, 219, 217, 138, 0, 0, 0, 0,
    ]
}

/// The seed word `position`.
pub open spec fn position_seed() -> Seq<u8> {
    seq![112u8, 111, 115, 105, 116, 105, 111, 110]
}

/// The seed word `tick_array`.
pub open spec fn tick_array_seed() -> Seq<u8> {
    seq![116u8, 105, 99, 107, 95, 97, 114, 114, 97, 121]
}

/// The seed word `amm_config`.
pub open spec fn amm_config_seed() -> Seq<u8> {
    seq![97u8, 109, 109, 95, 99, 111, 110, 102, 105, 103]
}

/// The seed word `pool`.
pub open spec fn pool_seed() -> Seq<u8> {
    seq![112u8, 111, 111, 108]
}

/// The seed word `pool_tick_array_bitmap_extension`.
pub open spec fn bitmap_extension_seed() -> Seq<u8> {
    seq![
        112u8, 111, 111, 108, 95, 116, 105, 99, 107, 95, 97, 114, 114, 97, 121, 95,
        98, 105, 116, 109, 97, 112, 95, 101, 120, 116, 101, 110, 115, 105, 111, 110,
    ]
}

/// Trusted: `spl_token::id()` is the address with the bytes of
/// `token_program_bytes`.
#[verifier::external_body]
pub(crate) fn spl_token_id() -> (r: Address)
    ensures
        r@ == token_program_bytes(),
{
    Address { bytes: spl_token::id().to_bytes() }
}

/// Trusted: `spl_token_2022::id()` is the address with the bytes of
/// `token_2022_program_bytes`.
#[verifier::external_body]
pub(crate) fn spl_token_2022_id() -> (r: Address)
    ensures
        r@ == token_2022_program_bytes(),
{
    Address { bytes: spl_token_2022::id().to_bytes() }
}

/// Trusted: `spl_memo::id()` is the address with the bytes of
/// `memo_program_bytes`.
#[verifier::external_body]
pub(crate) fn spl_memo_id() -> (r: Address)
    ensures
        r@ == memo_program_bytes(),
{
    Address { bytes: spl_memo::id().to_bytes() }
}

/// Trusted: `spl_associated_token_account::id()` is the address with the
/// bytes of `associated_token_program_bytes`.
#[verifier::external_body]
pub(crate) fn spl_associated_token_account_id() -> (r: Address)
    ensures
        r@ == associated_token_program_bytes(),
{
    Address { bytes: spl_associated_token_account::id().to_bytes() }
}

/// Trusted: `solana_sdk::system_program::id()` is the address with the bytes
/// of `system_program_bytes`.
#[verifier::external_body]
pub(crate) fn system_program_id() -> (r: Address)
    ensures
        r@ == system_program_bytes(),
{
    Address { bytes: solana_sdk::system_program::id().to_bytes() }
}

/// Trusted: `solana_sdk::sysvar::rent::id()` is the address with the bytes
/// of `rent_sysvar_bytes`.
#[verifier::external_body]
pub(crate) fn rent_sysvar_id() -> (r: Address)
    ensures
        r@ == rent_sysvar_bytes(),
{
    Address { bytes: solana_sdk::sysvar::rent::id().to_bytes() }
}

/// Trusted: `raydium_amm_v3::states::POSITION_SEED` holds the bytes of
/// `position_seed`.
#[verifier::external_body]
pub(crate) fn position_seed_word() -> (r: Vec<u8>)
    ensures
        r@ == position_seed(),
{
    raydium_amm_v3::states::POSITION_SEED.as_bytes().to_vec()
}

/// Trusted: `raydium_amm_v3::states::TICK_ARRAY_SEED` holds the bytes of
/// `tick_array_seed`.
#[verifier::external_body]
pub(crate) fn tick_array_seed_word() -> (r: Vec<u8>)
    ensures
        r@ == tick_array_seed(),
{
    raydium_amm_v3::states::TICK_ARRAY_SEED.as_bytes().to_vec()
}

/// Trusted: `raydium_amm_v3::states::AMM_CONFIG_SEED` holds the bytes of
/// `amm_config_seed`.
#[verifier::external_body]
pub(crate) fn amm_config_seed_word() -> (r: Vec<u8>)
    ensures
        r@ == amm_config_seed(),
{
    raydium_amm_v3::states::AMM_CONFIG_SEED.as_bytes().to_vec()
}

/// Trusted: `raydium_amm_v3::states::POOL_SEED` holds the bytes of
/// `pool_seed`.
#[verifier::external_body]
pub(crate) fn pool_seed_word() -> (r: Vec<u8>)
    ensures
        r@ == pool_seed(),
{
    raydium_amm_v3::states::POOL_SEED.as_bytes().to_vec()
}

/// Trusted: `raydium_amm_v3::states::POOL_TICK_ARRAY_BITMAP_SEED` holds the
/// bytes of `bitmap_extension_seed`.
#[verifier::external_body]
pub(crate) fn bitmap_extension_seed_word() -> (r: Vec<u8>)
    ensures
        r@ == bitmap_extension_seed(),
{
    raydium_amm_v3::states::POOL_TICK_ARRAY_BITMAP_SEED.as_bytes().to_vec()
}

} // verus!
