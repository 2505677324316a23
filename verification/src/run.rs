//! The two position commands, from the pool selector to the instructions.

use crate::address::Address;
use crate::close::{carries_out, close, withdraw_plan_spec};
use crate::derive::{
    bitmap_extension_address, bitmap_extension_address_spec, pool_id, pool_id_spec,
};
use crate::error::PlanError;
use crate::fee::TransferFeeInfo;
use crate::instruction::{writable, PositionInstruction, OPEN_COMPUTE_UNIT_LIMIT};
use crate::open::{open, open_plan_spec};
use crate::pool::{PersonalPosition, PoolState};
use crate::position::{address_of, lemma_address_of, PositionNftTokenInfo};
use crate::slippage::Slippage;
use vstd::prelude::*;

verus! {

/// A command of the tool. Prices are square-root prices in Q64.64.
#[derive(Clone, Copy, Debug, PartialEq, Eq)]
pub enum CommandsName {
    /// Open a position with a deposit of one token.
    OpenPosition {
        tick_lower_price_x64: u128,
        tick_upper_price_x64: u128,
        is_base_0: bool,
        input_amount: u64,
    },
    /// Empty and close the position of a price range.
    ClosePosition { tick_lower_price_x64: u128, tick_upper_price_x64: u128 },
    /// Deposit into the savings program.
    Deposit { input_amount: u64 },
    /// Withdraw from the savings program.
    Withdraw,
}

/// The two addresses that every position command needs of a pool.
#[derive(Clone, Copy, Debug, PartialEq, Eq)]
pub struct PoolAccounts {
    pub pool_id_account: Address,
    pub tickarray_bitmap_extension: Address,
}

/// The pool of two mints under the configuration with the given index, and
/// its tick-array bitmap extension; `None` where one cannot be derived.
pub open spec fn pool_accounts_spec(
    program: Address,
    mint_a: Address,
    mint_b: Address,
    amm_config_index: u16,
) -> Option<PoolAccounts> {
    match pool_id_spec(program@, amm_config_index, mint_a@, mint_b@) {
        None => None,
        Some(pool) => match bitmap_extension_address_spec(program@, pool) {
            None => None,
            Some(extension) => Some(
                PoolAccounts {
                    pool_id_account: address_of(pool),
                    tickarray_bitmap_extension: address_of(extension),
                },
            ),
        },
    }
}

/// The pool of two mints under the configuration with the given index, and
/// its tick-array bitmap extension. The mints may be given in either order.
pub fn pool_accounts(program: &Address, mint_a: &Address, mint_b: &Address, amm_config_index: u16)
    -> (r: Option<PoolAccounts>)
    ensures
        r == pool_accounts_spec(*program, *mint_a, *mint_b, amm_config_index),
{
    let pool = match pool_id(program, amm_config_index, mint_a, mint_b) {
        Some(a) => a,
        None => {
            return None;
        },
    };
    let extension = match bitmap_extension_address(program, &pool) {
        Some(a) => a,
        None => {
            return None;
        },
    };
    proof {
        lemma_address_of(pool);
        lemma_address_of(extension);
    }
    Some(PoolAccounts { pool_id_account: pool, tickarray_bitmap_extension: extension })
}

/// Whether a result is what the plan of a command asks for.
pub open spec fn run_outcome(
    r: Result<Vec<PositionInstruction>, PlanError>,
    command: CommandsName,
    program: Address,
    payer: Address,
    accounts: PoolAccounts,
    pool: PoolState,
    slippage: Slippage,
    fee_0: TransferFeeInfo,
    fee_1: TransferFeeInfo,
    nft_infos: Seq<PositionNftTokenInfo>,
    positions: Seq<PersonalPosition>,
    nft_mint: Address,
) -> bool {
    match command {
        CommandsName::OpenPosition {
            tick_lower_price_x64,
            tick_upper_price_x64,
            is_base_0,
            input_amount,
        } => match (
            r,
            open_plan_spec(
                program,
                payer,
                accounts.pool_id_account,
                pool,
                tick_lower_price_x64,
                tick_upper_price_x64,
                is_base_0,
                input_amount,
                slippage,
                fee_0,
                fee_1,
                positions,
                nft_mint,
            ),
        ) {
            (Ok(instructions), Ok(plan)) => {
                &&& instructions@.len() == 2
                &&& instructions@[0].is_compute_limit(OPEN_COMPUTE_UNIT_LIMIT)
                &&& instructions@[1].is_open(
                    program,
                    plan.accounts,
                    seq![writable(accounts.tickarray_bitmap_extension)],
                    plan.args,
                )
            },
            (Err(e), Err(expected)) => e == expected,
            _ => false,
        },
        CommandsName::ClosePosition { tick_lower_price_x64, tick_upper_price_x64 } => match (
            r,
            withdraw_plan_spec(
                program,
                payer,
                accounts.pool_id_account,
                accounts.tickarray_bitmap_extension,
                pool,
                tick_lower_price_x64,
                tick_upper_price_x64,
                slippage,
                fee_0,
                fee_1,
                nft_infos,
                positions,
                None,
            ),
        ) {
            (Ok(instructions), Ok(plan)) => carries_out(instructions@, program, plan),
            (Err(e), Err(expected)) => e == expected,
            _ => false,
        },
        _ => true,
    }
}

/// Plans the transaction of a position command on the pool of two mints.
/// `pool` is the snapshot of that pool, `nft_infos` and `positions` are the
/// owner's position tokens and position records, and `nft_mint` is the
/// fresh mint for a position to open.
pub fn run(
    command: &CommandsName,
    raydium_v3_program: &Address,
    payer: &Address,
    mint0: &Address,
    mint1: &Address,
    amm_config_index: u16,
    pool: &PoolState,
    slippage: Slippage,
    fee_0: &TransferFeeInfo,
    fee_1: &TransferFeeInfo,
    nft_infos: &Vec<PositionNftTokenInfo>,
    positions: &Vec<PersonalPosition>,
    nft_mint: &Address,
) -> (r: Result<Vec<PositionInstruction>, PlanError>)
    requires
        command is OpenPosition || command is ClosePosition,
    ensures
        match pool_accounts_spec(*raydium_v3_program, *mint0, *mint1, amm_config_index) {
            None => r == Err::<Vec<PositionInstruction>, PlanError>(PlanError::AddressNotDerivable),
            Some(accounts) => run_outcome(
                r,
                *command,
                *raydium_v3_program,
                *payer,
                accounts,
                *pool,
                slippage,
                *fee_0,
                *fee_1,
                nft_infos@,
                positions@,
                *nft_mint,
            ),
        },
{
    let accounts = match pool_accounts(raydium_v3_program, mint0, mint1, amm_config_index) {
        Some(a) => a,
        None => {
            return Err(PlanError::AddressNotDerivable);
        },
    };
    match *command {
        CommandsName::OpenPosition {
            tick_lower_price_x64,
            tick_upper_price_x64,
            is_base_0,
            input_amount,
        } => open(
            raydium_v3_program,
            payer,
            &accounts.pool_id_account,
            &accounts.tickarray_bitmap_extension,
            pool,
            tick_lower_price_x64,
            tick_upper_price_x64,
            is_base_0,
            input_amount,
            slippage,
            fee_0,
            fee_1,
            positions,
            nft_mint,
        ),
        CommandsName::ClosePosition { tick_lower_price_x64, tick_upper_price_x64 } => close(
            raydium_v3_program,
            payer,
            &accounts.pool_id_account,
            &accounts.tickarray_bitmap_extension,
            pool,
            tick_lower_price_x64,
            tick_upper_price_x64,
            slippage,
            fee_0,
            fee_1,
            nft_infos,
            positions,
        ),
        _ => Err(PlanError::PositionNotFound),
    }
}

} // verus!
