//! Opening a position: from a pool snapshot and a single-sided deposit to
//! the instructions of the transaction.

use crate::address::Address;
use crate::amounts::{delta_amounts_result, delta_amounts_signed};
use crate::assemble::{open_accounts_spec, open_position_with_token22_nft_instr};
use crate::derive::{associated_token_address, associated_token_address_spec};
use crate::error::PlanError;
use crate::fee::{deposit_max, deposit_max_result, TransferFeeInfo};
use crate::instruction::{
    writable, writable_account, AccountMeta, OpenPositionAccounts, OpenPositionArgs,
    PositionInstruction, OPEN_COMPUTE_UNIT_LIMIT,
};
use crate::position::{address_of, lemma_address_of};
use crate::liquidity::{
    liquidity_from_single_amount_0, liquidity_from_single_amount_1, single_amount_result,
};
use crate::pool::{find_position, find_position_spec, PersonalPosition, PoolState};
use crate::slippage::{amount_with_slippage, slippage_result, Slippage};
use crate::tick::{
    floor_to, price_to_tick, price_to_tick_result, range_result,
    sqrt_price_at_tick, tick_array_start_index, tick_to_sqrt_price, TickRange, TICK_ARRAY_SIZE,
};
use vstd::prelude::*;

verus! {

/// What a single-sided deposit into a price range comes to: the aligned
/// tick range, the liquidity it buys, the amounts of both tokens it moves,
/// their bounds under the slippage tolerance, and the tick arrays of the
/// two ticks.
#[derive(Clone, Copy, Debug, PartialEq, Eq)]
pub struct OpenQuote {
    pub tick_lower_index: i32,
    pub tick_upper_index: i32,
    pub liquidity: u128,
    pub amount_0: u64,
    pub amount_1: u64,
    pub amount_0_with_slippage: u64,
    pub amount_1_with_slippage: u64,
    pub tick_array_lower_start_index: i32,
    pub tick_array_upper_start_index: i32,
}

/// The range between the aligned ticks of two prices, or why the prices
/// bound no range.
pub open spec fn price_range_result(
    tick_spacing: u16,
    tick_lower_price_x64: u128,
    tick_upper_price_x64: u128,
) -> Result<TickRange, PlanError> {
    match price_to_tick_result(tick_lower_price_x64, tick_spacing) {
        Err(e) => Err(e),
        Ok(lower) => match price_to_tick_result(tick_upper_price_x64, tick_spacing) {
            Err(e) => Err(e),
            Ok(upper) => range_result(lower, upper, tick_spacing),
        },
    }
}

/// The quote of a deposit of `input_amount` of one token, token 0 where
/// `is_base_0`, into the range between two square-root prices, or the first
/// error on the way to it.
pub open spec fn open_quote_spec(
    pool: PoolState,
    tick_lower_price_x64: u128,
    tick_upper_price_x64: u128,
    is_base_0: bool,
    input_amount: u64,
    slippage: Slippage,
) -> Result<OpenQuote, PlanError> {
    match price_range_result(pool.tick_spacing, tick_lower_price_x64, tick_upper_price_x64) {
        Err(e) => Err(e),
        Ok(range) => match single_amount_result(
            is_base_0,
            pool.sqrt_price_x64,
            sqrt_price_at_tick(range.lower),
            sqrt_price_at_tick(range.upper),
            input_amount,
        ) {
            Err(e) => Err(e),
            Ok(liquidity) => if liquidity > i128::MAX {
                Err(PlanError::Overflow)
            } else {
                match delta_amounts_result(
                    pool.tick_current,
                    pool.sqrt_price_x64,
                    range.lower,
                    range.upper,
                    liquidity as i128,
                ) {
                    Err(e) => Err(e),
                    Ok(amounts) => match slippage_result(amounts.0, slippage) {
                        Err(e) => Err(e),
                        Ok(bound_0) => match slippage_result(amounts.1, slippage) {
                            Err(e) => Err(e),
                            Ok(bound_1) => Ok(
                                OpenQuote {
                                    tick_lower_index: range.lower,
                                    tick_upper_index: range.upper,
                                    liquidity,
                                    amount_0: amounts.0 as u64,
                                    amount_1: amounts.1 as u64,
                                    amount_0_with_slippage: bound_0,
                                    amount_1_with_slippage: bound_1,
                                    tick_array_lower_start_index: floor_to(
                                        range.lower as int,
                                        TICK_ARRAY_SIZE * pool.tick_spacing,
                                    ) as i32,
                                    tick_array_upper_start_index: floor_to(
                                        range.upper as int,
                                        TICK_ARRAY_SIZE * pool.tick_spacing,
                                    ) as i32,
                                },
                            ),
                        },
                    },
                }
            },
        },
    }
}

/// The range between the aligned ticks of two prices.
pub fn price_range(tick_spacing: u16, tick_lower_price_x64: u128, tick_upper_price_x64: u128) -> (r:
    Result<TickRange, PlanError>)
    ensures
        r == price_range_result(tick_spacing, tick_lower_price_x64, tick_upper_price_x64),
        r is Ok ==> r->Ok_0.wf(tick_spacing),
{
    let lower = price_to_tick(tick_lower_price_x64, tick_spacing)?;
    let upper = price_to_tick(tick_upper_price_x64, tick_spacing)?;
    TickRange::new(lower, upper, tick_spacing)
}

/// The quote of a deposit of `input_amount` of one token into the range
/// between two square-root prices.
pub fn open_quote(
    pool: &PoolState,
    tick_lower_price_x64: u128,
    tick_upper_price_x64: u128,
    is_base_0: bool,
    input_amount: u64,
    slippage: Slippage,
) -> (r: Result<OpenQuote, PlanError>)
    ensures
        r == open_quote_spec(
            *pool,
            tick_lower_price_x64,
            tick_upper_price_x64,
            is_base_0,
            input_amount,
            slippage,
        ),
        r is Ok ==> r->Ok_0.amount_0_with_slippage >= r->Ok_0.amount_0,
        r is Ok ==> r->Ok_0.amount_1_with_slippage >= r->Ok_0.amount_1,
        r is Ok ==> (r->Ok_0.tick_lower_index as int) % (pool.tick_spacing as int) == 0,
        r is Ok ==> (r->Ok_0.tick_upper_index as int) % (pool.tick_spacing as int) == 0,
        r is Ok ==> r->Ok_0.tick_lower_index < r->Ok_0.tick_upper_index,
{
    let range = price_range(pool.tick_spacing, tick_lower_price_x64, tick_upper_price_x64)?;
    let lower_price = tick_to_sqrt_price(range.lower)?;
    let upper_price = tick_to_sqrt_price(range.upper)?;
    let liquidity = if is_base_0 {
        liquidity_from_single_amount_0(pool.sqrt_price_x64, lower_price, upper_price, input_amount)?
    } else {
        liquidity_from_single_amount_1(pool.sqrt_price_x64, lower_price, upper_price, input_amount)?
    };
    if liquidity > i128::MAX as u128 {
        return Err(PlanError::Overflow);
    }
    let amounts = delta_amounts_signed(
        pool.tick_current,
        pool.sqrt_price_x64,
        range.lower,
        range.upper,
        liquidity as i128,
    )?;
    let bound_0 = amount_with_slippage(amounts.0, slippage)?;
    let bound_1 = amount_with_slippage(amounts.1, slippage)?;
    let lower_start = tick_array_start_index(range.lower, pool.tick_spacing)?;
    let upper_start = tick_array_start_index(range.upper, pool.tick_spacing)?;
    Ok(
        OpenQuote {
            tick_lower_index: range.lower,
            tick_upper_index: range.upper,
            liquidity,
            amount_0: amounts.0 as u64,
            amount_1: amounts.1 as u64,
            amount_0_with_slippage: bound_0,
            amount_1_with_slippage: bound_1,
            tick_array_lower_start_index: lower_start,
            tick_array_upper_start_index: upper_start,
        },
    )
}

/// The open-position instruction of a plan: its named accounts and its
/// arguments.
#[derive(Clone, Copy, Debug, PartialEq, Eq)]
pub struct OpenPlan {
    pub accounts: OpenPositionAccounts,
    pub args: OpenPositionArgs,
}

/// The plan of opening a position for a deposit, or the first error on the
/// way to it. The deposit is quoted; each bound grows by the transfer fee
/// of its mint; a position that already covers the range ends the plan; the
/// owner's token accounts are derived under the token program of each mint.
pub open spec fn open_plan_spec(
    program: Address,
    payer: Address,
    pool_id: Address,
    pool: PoolState,
    tick_lower_price_x64: u128,
    tick_upper_price_x64: u128,
    is_base_0: bool,
    input_amount: u64,
    slippage: Slippage,
    fee_0: TransferFeeInfo,
    fee_1: TransferFeeInfo,
    positions: Seq<PersonalPosition>,
    nft_mint: Address,
) -> Result<OpenPlan, PlanError> {
    match open_quote_spec(
        pool,
        tick_lower_price_x64,
        tick_upper_price_x64,
        is_base_0,
        input_amount,
        slippage,
    ) {
        Err(e) => Err(e),
        Ok(quote) => match deposit_max_result(fee_0, quote.amount_0_with_slippage) {
            Err(e) => Err(e),
            Ok(amount_0_max) => match deposit_max_result(fee_1, quote.amount_1_with_slippage) {
                Err(e) => Err(e),
                Ok(amount_1_max) => if find_position_spec(
                    positions,
                    pool_id,
                    quote.tick_lower_index,
                    quote.tick_upper_index,
                ) is Some {
                    Err(PlanError::PositionExists)
                } else {
                    match (
                        associated_token_address_spec(payer@, pool.token_mint_0@, fee_0.owner@),
                        associated_token_address_spec(payer@, pool.token_mint_1@, fee_1.owner@),
                    ) {
                        (Some(user_0), Some(user_1)) => match open_accounts_spec(
                            program,
                            payer,
                            pool_id,
                            pool.token_vault_0,
                            pool.token_vault_1,
                            pool.token_mint_0,
                            pool.token_mint_1,
                            nft_mint,
                            payer,
                            address_of(user_0),
                            address_of(user_1),
                            quote.tick_lower_index,
                            quote.tick_upper_index,
                            quote.tick_array_lower_start_index,
                            quote.tick_array_upper_start_index,
                        ) {
                            Some(accounts) => Ok(
                                OpenPlan {
                                    accounts,
                                    args: OpenPositionArgs {
                                        liquidity: quote.liquidity,
                                        amount_0_max,
                                        amount_1_max,
                                        tick_lower_index: quote.tick_lower_index,
                                        tick_upper_index: quote.tick_upper_index,
                                        tick_array_lower_start_index:
                                            quote.tick_array_lower_start_index,
                                        tick_array_upper_start_index:
                                            quote.tick_array_upper_start_index,
                                        with_metadata: false,
                                        base_flag: None,
                                    },
                                },
                            ),
                            None => Err(PlanError::AddressNotDerivable),
                        },
                        _ => Err(PlanError::AddressNotDerivable),
                    }
                },
            },
        },
    }
}

/// Plans the transaction that opens a position for a deposit of
/// `input_amount` of one token into the range between two square-root
/// prices: a compute-budget request, then the open-position instruction.
/// `positions` are the owner's position records and `nft_mint` the fresh
/// mint of the new position's token.
pub fn open(
    raydium_v3_program: &Address,
    payer: &Address,
    pool_id_account: &Address,
    tickarray_bitmap_extension: &Address,
    pool: &PoolState,
    tick_lower_price_x64: u128,
    tick_upper_price_x64: u128,
    is_base_0: bool,
    input_amount: u64,
    slippage: Slippage,
    fee_0: &TransferFeeInfo,
    fee_1: &TransferFeeInfo,
    positions: &Vec<PersonalPosition>,
    nft_mint: &Address,
) -> (r: Result<Vec<PositionInstruction>, PlanError>)
    ensures
        match (
            r,
            open_plan_spec(
                *raydium_v3_program,
                *payer,
                *pool_id_account,
                *pool,
                tick_lower_price_x64,
                tick_upper_price_x64,
                is_base_0,
                input_amount,
                slippage,
                *fee_0,
                *fee_1,
                positions@,
                *nft_mint,
            ),
        ) {
            (Ok(instructions), Ok(plan)) => {
                &&& instructions@.len() == 2
                &&& instructions@[0].is_compute_limit(OPEN_COMPUTE_UNIT_LIMIT)
                &&& instructions@[1].is_open(
                    *raydium_v3_program,
                    plan.accounts,
                    seq![writable(*tickarray_bitmap_extension)],
                    plan.args,
                )
            },
            (Err(e), Err(expected)) => e == expected,
            _ => false,
        },
        r is Ok ==> ({
            let quote = open_quote_spec(
                *pool,
                tick_lower_price_x64,
                tick_upper_price_x64,
                is_base_0,
                input_amount,
                slippage,
            );
            let plan = open_plan_spec(
                *raydium_v3_program,
                *payer,
                *pool_id_account,
                *pool,
                tick_lower_price_x64,
                tick_upper_price_x64,
                is_base_0,
                input_amount,
                slippage,
                *fee_0,
                *fee_1,
                positions@,
                *nft_mint,
            );
            &&& quote is Ok
            &&& plan is Ok
            &&& plan->Ok_0.args.liquidity == quote->Ok_0.liquidity
            &&& plan->Ok_0.args.amount_0_max >= quote->Ok_0.amount_0
            &&& plan->Ok_0.args.amount_1_max >= quote->Ok_0.amount_1
        }),
{
    let quote = open_quote(
        pool,
        tick_lower_price_x64,
        tick_upper_price_x64,
        is_base_0,
        input_amount,
        slippage,
    )?;
    let amount_0_max = deposit_max(fee_0, quote.amount_0_with_slippage)?;
    let amount_1_max = deposit_max(fee_1, quote.amount_1_with_slippage)?;
    if find_position(
        positions,
        pool_id_account,
        quote.tick_lower_index,
        quote.tick_upper_index,
    ).is_some() {
        return Err(PlanError::PositionExists);
    }
    let user_0 = associated_token_address(payer, &pool.token_mint_0, &fee_0.owner);
    let user_1 = associated_token_address(payer, &pool.token_mint_1, &fee_1.owner);
    let (user_0, user_1) = match (user_0, user_1) {
        (Some(a), Some(b)) => (a, b),
        _ => {
            return Err(PlanError::AddressNotDerivable);
        },
    };
    proof {
        lemma_address_of(user_0);
        lemma_address_of(user_1);
    }
    let mut remaining_accounts: Vec<AccountMeta> = Vec::new();
    remaining_accounts.push(writable_account(*tickarray_bitmap_extension));
    assert(remaining_accounts@ =~= seq![writable(*tickarray_bitmap_extension)]);
    let mut instructions: Vec<PositionInstruction> = Vec::new();
    instructions.push(PositionInstruction::SetComputeUnitLimit { units: OPEN_COMPUTE_UNIT_LIMIT });
    let mut open_position_instr = open_position_with_token22_nft_instr(
        raydium_v3_program,
        payer,
        pool_id_account,
        &pool.token_vault_0,
        &pool.token_vault_1,
        &pool.token_mint_0,
        &pool.token_mint_1,
        nft_mint,
        payer,
        &user_0,
        &user_1,
        remaining_accounts,
        quote.liquidity,
        amount_0_max,
        amount_1_max,
        quote.tick_lower_index,
        quote.tick_upper_index,
        quote.tick_array_lower_start_index,
        quote.tick_array_upper_start_index,
        false,
    )?;
    instructions.append(&mut open_position_instr);
    Ok(instructions)
}

} // verus!
