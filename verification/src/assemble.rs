//! Assembly of the three position instructions from resolved addresses and
//! computed amounts.

use crate::address::Address;
use crate::derive::{
    associated_token_address, associated_token_address_spec, personal_position_address,
    personal_position_address_spec, protocol_position_address, protocol_position_address_spec,
    tick_array_address, tick_array_address_spec,
};
use crate::error::PlanError;
use crate::instruction::{
    AccountMeta, ClosePositionAccounts, DecreaseLiquidityAccounts, DecreaseLiquidityArgs,
    OpenPositionAccounts, OpenPositionArgs, PositionInstruction,
};
use crate::position::{address_of, lemma_address_of};
use crate::program::{
    associated_token_program_bytes, memo_program_bytes, rent_sysvar_bytes, rent_sysvar_id,
    spl_associated_token_account_id, spl_memo_id, spl_token_2022_id, spl_token_id,
    system_program_bytes, system_program_id, token_2022_program_bytes, token_program_bytes,
};
use vstd::prelude::*;

verus! {

/// The derived addresses that the instructions on a position in a tick
/// range of a pool name: the pool-wide position record and the two tick
/// arrays.
#[derive(Clone, Copy, Debug, PartialEq, Eq)]
pub struct RangeAccounts {
    pub protocol_position: Address,
    pub tick_array_lower: Address,
    pub tick_array_upper: Address,
}

/// The derived addresses of a tick range of a pool, or `None` where one of
/// them cannot be derived.
pub open spec fn range_accounts_spec(
    program: Address,
    pool: Address,
    tick_lower_index: i32,
    tick_upper_index: i32,
    tick_array_lower_start_index: i32,
    tick_array_upper_start_index: i32,
) -> Option<RangeAccounts> {
    match (
        protocol_position_address_spec(program@, pool@, tick_lower_index, tick_upper_index),
        tick_array_address_spec(program@, pool@, tick_array_lower_start_index),
        tick_array_address_spec(program@, pool@, tick_array_upper_start_index),
    ) {
        (Some(position), Some(lower), Some(upper)) => Some(
            RangeAccounts {
                protocol_position: address_of(position),
                tick_array_lower: address_of(lower),
                tick_array_upper: address_of(upper),
            },
        ),
        _ => None,
    }
}

/// The derived addresses of a tick range of a pool.
pub fn range_accounts(
    program: &Address,
    pool: &Address,
    tick_lower_index: i32,
    tick_upper_index: i32,
    tick_array_lower_start_index: i32,
    tick_array_upper_start_index: i32,
) -> (r: Option<RangeAccounts>)
    ensures
        r == range_accounts_spec(
            *program,
            *pool,
            tick_lower_index,
            tick_upper_index,
            tick_array_lower_start_index,
            tick_array_upper_start_index,
        ),
{
    let position = protocol_position_address(program, pool, tick_lower_index, tick_upper_index);
    let lower = tick_array_address(program, pool, tick_array_lower_start_index);
    let upper = tick_array_address(program, pool, tick_array_upper_start_index);
    match (position, lower, upper) {
        (Some(p), Some(l), Some(u)) => {
            proof {
                lemma_address_of(p);
                lemma_address_of(l);
                lemma_address_of(u);
            }
            Some(RangeAccounts { protocol_position: p, tick_array_lower: l, tick_array_upper: u })
        },
        _ => None,
    }
}

/// The accounts of the instruction that opens a position whose token is
/// minted under the 2022 token program, or `None` where one of them cannot
/// be derived.
pub open spec fn open_accounts_spec(
    program: Address,
    payer: Address,
    pool_account_key: Address,
    token_vault_0: Address,
    token_vault_1: Address,
    token_mint_0: Address,
    token_mint_1: Address,
    nft_mint_key: Address,
    nft_to_owner: Address,
    user_token_account_0: Address,
    user_token_account_1: Address,
    tick_lower_index: i32,
    tick_upper_index: i32,
    tick_array_lower_start_index: i32,
    tick_array_upper_start_index: i32,
) -> Option<OpenPositionAccounts> {
    match (
        associated_token_address_spec(payer@, nft_mint_key@, token_2022_program_bytes()),
        range_accounts_spec(
            program,
            pool_account_key,
            tick_lower_index,
            tick_upper_index,
            tick_array_lower_start_index,
            tick_array_upper_start_index,
        ),
        personal_position_address_spec(program@, nft_mint_key@),
    ) {
        (Some(nft_account), Some(range), Some(personal)) => Some(
            OpenPositionAccounts {
                payer,
                position_nft_owner: nft_to_owner,
                position_nft_mint: nft_mint_key,
                position_nft_account: address_of(nft_account),
                pool_state: pool_account_key,
                protocol_position: range.protocol_position,
                tick_array_lower: range.tick_array_lower,
                tick_array_upper: range.tick_array_upper,
                personal_position: address_of(personal),
                token_account_0: user_token_account_0,
                token_account_1: user_token_account_1,
                token_vault_0,
                token_vault_1,
                rent: address_of(rent_sysvar_bytes()),
                system_program: address_of(system_program_bytes()),
                token_program: address_of(token_program_bytes()),
                associated_token_program: address_of(associated_token_program_bytes()),
                token_program_2022: address_of(token_2022_program_bytes()),
                vault_0_mint: token_mint_0,
                vault_1_mint: token_mint_1,
            },
        ),
        _ => None,
    }
}

/// The instruction that opens a position whose token is minted under the
/// 2022 token program.
pub fn open_position_with_token22_nft_instr(
    raydium_v3_program: &Address,
    payer: &Address,
    pool_account_key: &Address,
    token_vault_0: &Address,
    token_vault_1: &Address,
    token_mint_0: &Address,
    token_mint_1: &Address,
    nft_mint_key: &Address,
    nft_to_owner: &Address,
    user_token_account_0: &Address,
    user_token_account_1: &Address,
    remaining_accounts: Vec<AccountMeta>,
    liquidity: u128,
    amount_0_max: u64,
    amount_1_max: u64,
    tick_lower_index: i32,
    tick_upper_index: i32,
    tick_array_lower_start_index: i32,
    tick_array_upper_start_index: i32,
    with_metadata: bool,
) -> (r: Result<Vec<PositionInstruction>, PlanError>)
    ensures
        r is Ok <==> open_accounts_spec(
            *raydium_v3_program,
            *payer,
            *pool_account_key,
            *token_vault_0,
            *token_vault_1,
            *token_mint_0,
            *token_mint_1,
            *nft_mint_key,
            *nft_to_owner,
            *user_token_account_0,
            *user_token_account_1,
            tick_lower_index,
            tick_upper_index,
            tick_array_lower_start_index,
            tick_array_upper_start_index,
        ) is Some,
        r is Ok ==> r->Ok_0@.len() == 1 && r->Ok_0@[0].is_open(
            *raydium_v3_program,
            open_accounts_spec(
                *raydium_v3_program,
                *payer,
                *pool_account_key,
                *token_vault_0,
                *token_vault_1,
                *token_mint_0,
                *token_mint_1,
                *nft_mint_key,
                *nft_to_owner,
                *user_token_account_0,
                *user_token_account_1,
                tick_lower_index,
                tick_upper_index,
                tick_array_lower_start_index,
                tick_array_upper_start_index,
            )->0,
            remaining_accounts@,
            (OpenPositionArgs {
                liquidity,
                amount_0_max,
                amount_1_max,
                tick_lower_index,
                tick_upper_index,
                tick_array_lower_start_index,
                tick_array_upper_start_index,
                with_metadata,
                base_flag: None,
            }),
        ),
        r is Err ==> r->Err_0 == PlanError::AddressNotDerivable,
{
    let token_2022 = spl_token_2022_id();
    let nft_account = associated_token_address(payer, nft_mint_key, &token_2022);
    let range = range_accounts(
        raydium_v3_program,
        pool_account_key,
        tick_lower_index,
        tick_upper_index,
        tick_array_lower_start_index,
        tick_array_upper_start_index,
    );
    let personal = personal_position_address(raydium_v3_program, nft_mint_key);
    match (nft_account, range, personal) {
        (Some(nft_account), Some(range), Some(personal)) => {
            let rent = rent_sysvar_id();
            let system = system_program_id();
            let token = spl_token_id();
            let associated = spl_associated_token_account_id();
            proof {
                lemma_address_of(nft_account);
                lemma_address_of(personal);
                lemma_address_of(rent);
                lemma_address_of(system);
                lemma_address_of(token);
                lemma_address_of(associated);
                lemma_address_of(token_2022);
            }
            let accounts = OpenPositionAccounts {
                payer: *payer,
                position_nft_owner: *nft_to_owner,
                position_nft_mint: *nft_mint_key,
                position_nft_account: nft_account,
                pool_state: *pool_account_key,
                protocol_position: range.protocol_position,
                tick_array_lower: range.tick_array_lower,
                tick_array_upper: range.tick_array_upper,
                personal_position: personal,
                token_account_0: *user_token_account_0,
                token_account_1: *user_token_account_1,
                token_vault_0: *token_vault_0,
                token_vault_1: *token_vault_1,
                rent,
                system_program: system,
                token_program: token,
                associated_token_program: associated,
                token_program_2022: token_2022,
                vault_0_mint: *token_mint_0,
                vault_1_mint: *token_mint_1,
            };
            let args = OpenPositionArgs {
                liquidity,
                amount_0_max,
                amount_1_max,
                tick_lower_index,
                tick_upper_index,
                tick_array_lower_start_index,
                tick_array_upper_start_index,
                with_metadata,
                base_flag: None,
            };
            let mut out: Vec<PositionInstruction> = Vec::new();
            out.push(
                PositionInstruction::OpenPosition {
                    program_id: *raydium_v3_program,
                    accounts,
                    remaining_accounts,
                    args,
                },
            );
            Ok(out)
        },
        _ => Err(PlanError::AddressNotDerivable),
    }
}

/// The accounts of the instruction that withdraws liquidity from a
/// position, or `None` where one of them cannot be derived.
pub open spec fn decrease_accounts_spec(
    program: Address,
    payer: Address,
    pool_account_key: Address,
    token_vault_0: Address,
    token_vault_1: Address,
    token_mint_0: Address,
    token_mint_1: Address,
    nft_mint_key: Address,
    nft_token_key: Address,
    user_token_account_0: Address,
    user_token_account_1: Address,
    tick_lower_index: i32,
    tick_upper_index: i32,
    tick_array_lower_start_index: i32,
    tick_array_upper_start_index: i32,
) -> Option<DecreaseLiquidityAccounts> {
    match (
        personal_position_address_spec(program@, nft_mint_key@),
        range_accounts_spec(
            program,
            pool_account_key,
            tick_lower_index,
            tick_upper_index,
            tick_array_lower_start_index,
            tick_array_upper_start_index,
        ),
    ) {
        (Some(personal), Some(range)) => Some(
            DecreaseLiquidityAccounts {
                nft_owner: payer,
                nft_account: nft_token_key,
                personal_position: address_of(personal),
                pool_state: pool_account_key,
                protocol_position: range.protocol_position,
                token_vault_0,
                token_vault_1,
                tick_array_lower: range.tick_array_lower,
                tick_array_upper: range.tick_array_upper,
                recipient_token_account_0: user_token_account_0,
                recipient_token_account_1: user_token_account_1,
                token_program: address_of(token_program_bytes()),
                token_program_2022: address_of(token_2022_program_bytes()),
                memo_program: address_of(memo_program_bytes()),
                vault_0_mint: token_mint_0,
                vault_1_mint: token_mint_1,
            },
        ),
        _ => None,
    }
}

/// The instruction that withdraws liquidity from a position.
pub fn decrease_liquidity_instr(
    raydium_v3_program: &Address,
    payer: &Address,
    pool_account_key: &Address,
    token_vault_0: &Address,
    token_vault_1: &Address,
    token_mint_0: &Address,
    token_mint_1: &Address,
    nft_mint_key: &Address,
    nft_token_key: &Address,
    user_token_account_0: &Address,
    user_token_account_1: &Address,
    remaining_accounts: Vec<AccountMeta>,
    liquidity: u128,
    amount_0_min: u64,
    amount_1_min: u64,
    tick_lower_index: i32,
    tick_upper_index: i32,
    tick_array_lower_start_index: i32,
    tick_array_upper_start_index: i32,
) -> (r: Result<Vec<PositionInstruction>, PlanError>)
    ensures
        r is Ok <==> decrease_accounts_spec(
            *raydium_v3_program,
            *payer,
            *pool_account_key,
            *token_vault_0,
            *token_vault_1,
            *token_mint_0,
            *token_mint_1,
            *nft_mint_key,
            *nft_token_key,
            *user_token_account_0,
            *user_token_account_1,
            tick_lower_index,
            tick_upper_index,
            tick_array_lower_start_index,
            tick_array_upper_start_index,
        ) is Some,
        r is Ok ==> r->Ok_0@.len() == 1 && r->Ok_0@[0].is_decrease(
            *raydium_v3_program,
            decrease_accounts_spec(
                *raydium_v3_program,
                *payer,
                *pool_account_key,
                *token_vault_0,
                *token_vault_1,
                *token_mint_0,
                *token_mint_1,
                *nft_mint_key,
                *nft_token_key,
                *user_token_account_0,
                *user_token_account_1,
                tick_lower_index,
                tick_upper_index,
                tick_array_lower_start_index,
                tick_array_upper_start_index,
            )->0,
            remaining_accounts@,
            (DecreaseLiquidityArgs { liquidity, amount_0_min, amount_1_min }),
        ),
        r is Err ==> r->Err_0 == PlanError::AddressNotDerivable,
{
    let personal = personal_position_address(raydium_v3_program, nft_mint_key);
    let range = range_accounts(
        raydium_v3_program,
        pool_account_key,
        tick_lower_index,
        tick_upper_index,
        tick_array_lower_start_index,
        tick_array_upper_start_index,
    );
    match (personal, range) {
        (Some(personal), Some(range)) => {
            let token = spl_token_id();
            let token_2022 = spl_token_2022_id();
            let memo = spl_memo_id();
            proof {
                lemma_address_of(personal);
                lemma_address_of(token);
                lemma_address_of(token_2022);
                lemma_address_of(memo);
            }
            let accounts = DecreaseLiquidityAccounts {
                nft_owner: *payer,
                nft_account: *nft_token_key,
                personal_position: personal,
                pool_state: *pool_account_key,
                protocol_position: range.protocol_position,
                token_vault_0: *token_vault_0,
                token_vault_1: *token_vault_1,
                tick_array_lower: range.tick_array_lower,
                tick_array_upper: range.tick_array_upper,
                recipient_token_account_0: *user_token_account_0,
                recipient_token_account_1: *user_token_account_1,
                token_program: token,
                token_program_2022: token_2022,
                memo_program: memo,
                vault_0_mint: *token_mint_0,
                vault_1_mint: *token_mint_1,
            };
            let args = DecreaseLiquidityArgs { liquidity, amount_0_min, amount_1_min };
            let mut out: Vec<PositionInstruction> = Vec::new();
            out.push(
                PositionInstruction::DecreaseLiquidity {
                    program_id: *raydium_v3_program,
                    accounts,
                    remaining_accounts,
                    args,
                },
            );
            Ok(out)
        },
        _ => Err(PlanError::AddressNotDerivable),
    }
}

/// The accounts of the instruction that closes a position, or `None` where
/// the position record cannot be derived.
pub open spec fn close_accounts_spec(
    program: Address,
    payer: Address,
    nft_mint_key: Address,
    nft_token_key: Address,
    nft_token_program: Address,
) -> Option<ClosePositionAccounts> {
    match personal_position_address_spec(program@, nft_mint_key@) {
        Some(personal) => Some(
            ClosePositionAccounts {
                nft_owner: payer,
                position_nft_mint: nft_mint_key,
                position_nft_account: nft_token_key,
                personal_position: address_of(personal),
                system_program: address_of(system_program_bytes()),
                token_program: nft_token_program,
            },
        ),
        None => None,
    }
}

/// The instruction that closes a position.
pub fn close_personal_position_instr(
    raydium_v3_program: &Address,
    payer: &Address,
    nft_mint_key: &Address,
    nft_token_key: &Address,
    nft_token_program: &Address,
) -> (r: Result<Vec<PositionInstruction>, PlanError>)
    ensures
        r is Ok <==> close_accounts_spec(
            *raydium_v3_program,
            *payer,
            *nft_mint_key,
            *nft_token_key,
            *nft_token_program,
        ) is Some,
        r is Ok ==> r->Ok_0@.len() == 1 && r->Ok_0@[0].is_close(
            *raydium_v3_program,
            close_accounts_spec(
                *raydium_v3_program,
                *payer,
                *nft_mint_key,
                *nft_token_key,
                *nft_token_program,
            )->0,
        ),
        r is Err ==> r->Err_0 == PlanError::AddressNotDerivable,
{
    match personal_position_address(raydium_v3_program, nft_mint_key) {
        Some(personal) => {
            let system = system_program_id();
            proof {
                lemma_address_of(personal);
                lemma_address_of(system);
            }
            let accounts = ClosePositionAccounts {
                nft_owner: *payer,
                position_nft_mint: *nft_mint_key,
                position_nft_account: *nft_token_key,
                personal_position: personal,
                system_program: system,
                token_program: *nft_token_program,
            };
            let mut out: Vec<PositionInstruction> = Vec::new();
            out.push(
                PositionInstruction::ClosePosition { program_id: *raydium_v3_program, accounts },
            );
            Ok(out)
        },
        None => Err(PlanError::AddressNotDerivable),
    }
}

} // verus!
