//! Program-derived addresses of the accounts a position transaction names.

use crate::address::{lemma_precedes_asymmetric, lemma_precedes_total, opt_view, precedes, Address};
use crate::program::{
    amm_config_seed, amm_config_seed_word, associated_token_program_bytes,
    bitmap_extension_seed, bitmap_extension_seed_word, pool_seed, pool_seed_word,
    position_seed, position_seed_word, spl_associated_token_account_id, spl_token_id,
    tick_array_seed, tick_array_seed_word, token_program_bytes,
};
use crate::error::PlanError;
use solana_sdk::pubkey::Pubkey;
use vstd::prelude::*;

verus! {

/// The address that the program-derived-address search yields for `seeds`
/// under `program_id`, or `None` where the search finds none.
pub uninterp spec fn program_address(seeds: Seq<Seq<u8>>, program_id: Seq<u8>) -> Option<Seq<u8>>;

/// The byte sequences that a list of seed vectors holds.
pub open spec fn seed_views(seeds: Seq<Vec<u8>>) -> Seq<Seq<u8>> {
    Seq::new(seeds.len(), |i: int| seeds[i]@)
}

/// Big-endian bytes of a `u16`.
pub open spec fn be_bytes_u16(x: u16) -> Seq<u8> {
    seq![(x / 256) as u8, (x % 256) as u8]
}

/// Big-endian bytes of an `i32` in two's complement.
pub open spec fn be_bytes_i32(x: i32) -> Seq<u8> {
    let u: int = if x >= 0 {
        x as int
    } else {
        x + 0x1_0000_0000
    };
    seq![
        (u / 0x100_0000) as u8,
        ((u / 0x1_0000) % 256) as u8,
        ((u / 0x100) % 256) as u8,
        (u % 256) as u8,
    ]
}

/// Address of the configuration account with the given index.
pub open spec fn amm_config_address_spec(program: Seq<u8>, index: u16) -> Option<Seq<u8>> {
    program_address(seq![amm_config_seed(), be_bytes_u16(index)], program)
}

/// The two mints of a pool in canonical order: the one that comes first in
/// byte order stands first.
pub open spec fn canonical_mints(mint_a: Seq<u8>, mint_b: Seq<u8>) -> (Seq<u8>, Seq<u8>) {
    if precedes(mint_b, mint_a) {
        (mint_b, mint_a)
    } else {
        (mint_a, mint_b)
    }
}

/// Address of the pool of two mints under a configuration account, the
/// mints taken in the order given.
pub open spec fn pool_address_ordered(
    program: Seq<u8>,
    amm_config: Seq<u8>,
    mint_0: Seq<u8>,
    mint_1: Seq<u8>,
) -> Option<Seq<u8>> {
    program_address(seq![pool_seed(), amm_config, mint_0, mint_1], program)
}

/// Address of the pool of two mints under a configuration account, the
/// mints taken in canonical order.
pub open spec fn pool_address_spec(
    program: Seq<u8>,
    amm_config: Seq<u8>,
    mint_a: Seq<u8>,
    mint_b: Seq<u8>,
) -> Option<Seq<u8>> {
    let (mint_0, mint_1) = canonical_mints(mint_a, mint_b);
    pool_address_ordered(program, amm_config, mint_0, mint_1)
}

/// Address of the pool of two mints under the configuration with the given
/// index.
pub open spec fn pool_id_spec(program: Seq<u8>, index: u16, mint_a: Seq<u8>, mint_b: Seq<u8>)
    -> Option<Seq<u8>> {
    match amm_config_address_spec(program, index) {
        Some(config) => pool_address_spec(program, config, mint_a, mint_b),
        None => None,
    }
}

/// Address of a pool's tick-array bitmap extension.
pub open spec fn bitmap_extension_address_spec(program: Seq<u8>, pool: Seq<u8>) -> Option<Seq<u8>> {
    program_address(seq![bitmap_extension_seed(), pool], program)
}

/// Address of the pool-wide position record of a tick range.
pub open spec fn protocol_position_address_spec(
    program: Seq<u8>,
    pool: Seq<u8>,
    tick_lower: i32,
    tick_upper: i32,
) -> Option<Seq<u8>> {
    program_address(
        seq![position_seed(), pool, be_bytes_i32(tick_lower), be_bytes_i32(tick_upper)],
        program,
    )
}

/// Address of the personal position record that an NFT mint stands for.
pub open spec fn personal_position_address_spec(program: Seq<u8>, nft_mint: Seq<u8>) -> Option<
    Seq<u8>,
> {
    program_address(seq![position_seed(), nft_mint], program)
}

/// Address of the tick array of a pool that starts at `start_index`.
pub open spec fn tick_array_address_spec(program: Seq<u8>, pool: Seq<u8>, start_index: i32)
    -> Option<Seq<u8>> {
    program_address(seq![tick_array_seed(), pool, be_bytes_i32(start_index)], program)
}

/// Address of the token account that a wallet holds for a mint under a
/// token program.
pub open spec fn associated_token_address_spec(
    wallet: Seq<u8>,
    mint: Seq<u8>,
    token_program: Seq<u8>,
) -> Option<Seq<u8>> {
    program_address(seq![wallet, token_program, mint], associated_token_program_bytes())
}

/// Trusted: `Pubkey::try_find_program_address` is a function of the seeds
/// and the program address alone. The contract names its first component
/// `program_address` and states nothing more of it.
#[verifier::external_body]
fn try_find_program_address(seeds: &Vec<Vec<u8>>, program_id: &Address) -> (r: Option<Address>)
    ensures
        opt_view(r) == program_address(seed_views(seeds@), program_id@),
{
    let parts: Vec<&[u8]> = seeds.iter().map(|s| s.as_slice()).collect();
    Pubkey::try_find_program_address(&parts, &Pubkey::new_from_array(program_id.bytes))
        .map(|found| Address { bytes: found.0.to_bytes() })
}

/// Trusted: `spl_associated_token_account::get_associated_token_address_with_program_id`
/// returns the address derived from the seeds wallet, token program, mint
/// under the associated-token-account program. It panics where the search
/// finds no address, which `requires` leaves out.
#[verifier::external_body]
fn get_associated_token_address_with_program_id(
    wallet: &Address,
    mint: &Address,
    token_program: &Address,
) -> (r: Address)
    requires
        associated_token_address_spec(wallet@, mint@, token_program@) is Some,
    ensures
        Some(r@) == associated_token_address_spec(wallet@, mint@, token_program@),
{
    let key = spl_associated_token_account::get_associated_token_address_with_program_id(
        &Pubkey::new_from_array(wallet.bytes),
        &Pubkey::new_from_array(mint.bytes),
        &Pubkey::new_from_array(token_program.bytes),
    );
    Address { bytes: key.to_bytes() }
}

/// Big-endian bytes of a `u16`.
pub fn u16_be_bytes(x: u16) -> (r: Vec<u8>)
    ensures
        r@ == be_bytes_u16(x),
{
    let mut out: Vec<u8> = Vec::new();
    out.push((x / 256) as u8);
    out.push((x % 256) as u8);
    assert(out@ =~= be_bytes_u16(x));
    out
}

/// Big-endian bytes of an `i32` in two's complement.
pub fn i32_be_bytes(x: i32) -> (r: Vec<u8>)
    ensures
        r@ == be_bytes_i32(x),
{
    let u: i64 = if x >= 0 {
        x as i64
    } else {
        x as i64 + 0x1_0000_0000
    };
    let mut out: Vec<u8> = Vec::new();
    out.push((u / 0x100_0000) as u8);
    out.push(((u / 0x1_0000) % 256) as u8);
    out.push(((u / 0x100) % 256) as u8);
    out.push((u % 256) as u8);
    assert(out@ =~= be_bytes_i32(x));
    out
}

/// Derives the address that `seeds` give under `program_id`, or fails
/// where the search finds none: more than fifteen seeds, a seed of more
/// than 32 bytes, or no viable bump.
pub fn derive_address(seeds: &Vec<Vec<u8>>, program_id: &Address) -> (r: Result<Address, PlanError>)
    ensures
        match r {
            Ok(a) => program_address(seed_views(seeds@), program_id@) == Some(a@),
            Err(e) => e == PlanError::AddressNotDerivable && program_address(
                seed_views(seeds@),
                program_id@,
            ) is None,
        },
{
    match try_find_program_address(seeds, program_id) {
        Some(a) => Ok(a),
        None => Err(PlanError::AddressNotDerivable),
    }
}

/// Address of the configuration account with the given index.
pub fn amm_config_address(program: &Address, index: u16) -> (r: Option<Address>)
    ensures
        opt_view(r) == amm_config_address_spec(program@, index),
{
    let mut seeds: Vec<Vec<u8>> = Vec::new();
    seeds.push(amm_config_seed_word());
    seeds.push(u16_be_bytes(index));
    assert(seed_views(seeds@) =~= seq![amm_config_seed(), be_bytes_u16(index)]);
    try_find_program_address(&seeds, program)
}

/// Address of the pool of two mints under a configuration account. The
/// mints may be given in either order.
pub fn pool_address(program: &Address, amm_config: &Address, mint_a: &Address, mint_b: &Address)
    -> (r: Option<Address>)
    ensures
        opt_view(r) == pool_address_spec(program@, amm_config@, mint_a@, mint_b@),
{
    let swap = mint_b.is_before(mint_a);
    let mint_0 = if swap {
        mint_b
    } else {
        mint_a
    };
    let mint_1 = if swap {
        mint_a
    } else {
        mint_b
    };
    let mut seeds: Vec<Vec<u8>> = Vec::new();
    seeds.push(pool_seed_word());
    seeds.push(amm_config.to_vec());
    seeds.push(mint_0.to_vec());
    seeds.push(mint_1.to_vec());
    assert(seed_views(seeds@) =~= seq![pool_seed(), amm_config@, mint_0@, mint_1@]);
    try_find_program_address(&seeds, program)
}

/// Address of the pool of two mints under the configuration with the given
/// index.
pub fn pool_id(program: &Address, index: u16, mint_a: &Address, mint_b: &Address) -> (r: Option<
    Address,
>)
    ensures
        opt_view(r) == pool_id_spec(program@, index, mint_a@, mint_b@),
{
    match amm_config_address(program, index) {
        Some(config) => pool_address(program, &config, mint_a, mint_b),
        None => None,
    }
}

/// Address of a pool's tick-array bitmap extension.
pub fn bitmap_extension_address(program: &Address, pool: &Address) -> (r: Option<Address>)
    ensures
        opt_view(r) == bitmap_extension_address_spec(program@, pool@),
{
    let mut seeds: Vec<Vec<u8>> = Vec::new();
    seeds.push(bitmap_extension_seed_word());
    seeds.push(pool.to_vec());
    assert(seed_views(seeds@) =~= seq![bitmap_extension_seed(), pool@]);
    try_find_program_address(&seeds, program)
}

/// Address of the pool-wide position record of a tick range.
pub fn protocol_position_address(
    program: &Address,
    pool: &Address,
    tick_lower: i32,
    tick_upper: i32,
) -> (r: Option<Address>)
    ensures
        opt_view(r) == protocol_position_address_spec(program@, pool@, tick_lower, tick_upper),
{
    let mut seeds: Vec<Vec<u8>> = Vec::new();
    seeds.push(position_seed_word());
    seeds.push(pool.to_vec());
    seeds.push(i32_be_bytes(tick_lower));
    seeds.push(i32_be_bytes(tick_upper));
    assert(seed_views(seeds@) =~= seq![
        position_seed(),
        pool@,
        be_bytes_i32(tick_lower),
        be_bytes_i32(tick_upper),
    ]);
    try_find_program_address(&seeds, program)
}

/// Address of the personal position record that an NFT mint stands for.
pub fn personal_position_address(program: &Address, nft_mint: &Address) -> (r: Option<Address>)
    ensures
        opt_view(r) == personal_position_address_spec(program@, nft_mint@),
{
    let mut seeds: Vec<Vec<u8>> = Vec::new();
    seeds.push(position_seed_word());
    seeds.push(nft_mint.to_vec());
    assert(seed_views(seeds@) =~= seq![position_seed(), nft_mint@]);
    try_find_program_address(&seeds, program)
}

/// Address of the tick array of a pool that starts at `start_index`.
pub fn tick_array_address(program: &Address, pool: &Address, start_index: i32) -> (r: Option<
    Address,
>)
    ensures
        opt_view(r) == tick_array_address_spec(program@, pool@, start_index),
{
    let mut seeds: Vec<Vec<u8>> = Vec::new();
    seeds.push(tick_array_seed_word());
    seeds.push(pool.to_vec());
    seeds.push(i32_be_bytes(start_index));
    assert(seed_views(seeds@) =~= seq![tick_array_seed(), pool@, be_bytes_i32(start_index)]);
    try_find_program_address(&seeds, program)
}

/// Address of the token account that a wallet holds for a mint under a
/// token program, or `None` where no such address can be derived.
pub fn associated_token_address(wallet: &Address, mint: &Address, token_program: &Address) -> (r:
    Option<Address>)
    ensures
        opt_view(r) == associated_token_address_spec(wallet@, mint@, token_program@),
{
    let mut seeds: Vec<Vec<u8>> = Vec::new();
    seeds.push(wallet.to_vec());
    seeds.push(token_program.to_vec());
    seeds.push(mint.to_vec());
    assert(seed_views(seeds@) =~= seq![wallet@, token_program@, mint@]);
    let owner = spl_associated_token_account_id();
    match try_find_program_address(&seeds, &owner) {
        Some(_) => Some(get_associated_token_address_with_program_id(wallet, mint, token_program)),
        None => None,
    }
}

/// Address of the token account that a wallet holds for a mint under the
/// token program.
pub fn get_associated_token_address(wallet: &Address, mint: &Address) -> (r: Option<Address>)
    ensures
        opt_view(r) == associated_token_address_spec(wallet@, mint@, token_program_bytes()),
{
    let program = spl_token_id();
    associated_token_address(wallet, mint, &program)
}

/// Derivation is a function of its inputs: two addresses derived from the
/// same seeds under the same program are the same address.
pub proof fn lemma_derivation_deterministic(
    first: Option<Address>,
    second: Option<Address>,
    seeds: Seq<Seq<u8>>,
    program_id: Seq<u8>,
)
    requires
        opt_view(first) == program_address(seeds, program_id),
        opt_view(second) == program_address(seeds, program_id),
    ensures
        first == second,
{
    if first is Some {
        crate::address::lemma_view_injective(first->0, second->0);
    }
}

/// Canonical ordering makes the pool address independent of the order in
/// which the two mints are given.
pub proof fn lemma_pool_address_order_independent(
    program: Seq<u8>,
    amm_config: Seq<u8>,
    mint_a: Seq<u8>,
    mint_b: Seq<u8>,
)
    requires
        mint_a.len() == mint_b.len(),
    ensures
        pool_address_spec(program, amm_config, mint_a, mint_b) == pool_address_spec(
            program,
            amm_config,
            mint_b,
            mint_a,
        ),
        canonical_mints(mint_a, mint_b) == canonical_mints(mint_b, mint_a),
{
    lemma_precedes_asymmetric(mint_a, mint_b);
    lemma_precedes_total(mint_a, mint_b);
}

/// The canonical order never puts the later mint first.
pub proof fn lemma_canonical_mints_ordered(mint_a: Seq<u8>, mint_b: Seq<u8>)
    ensures
        !precedes(canonical_mints(mint_a, mint_b).1, canonical_mints(mint_a, mint_b).0),
{
    lemma_precedes_asymmetric(mint_a, mint_b);
}

} // verus!
