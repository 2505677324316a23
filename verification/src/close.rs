//! Withdrawing from a position and closing it: from a pool snapshot and
//! the owner's positions to the instructions of the transaction.

use crate::address::Address;
use crate::amounts::{delta_amounts_result, delta_amounts_signed};
use crate::assemble::{
    close_accounts_spec, close_personal_position_instr, decrease_accounts_spec,
    decrease_liquidity_instr,
};
use crate::derive::{associated_token_address, associated_token_address_spec};
use crate::error::PlanError;
use crate::fee::{withdrawal_min, withdrawal_min_spec, TransferFeeInfo};
use crate::instruction::{
    withdrawal_remaining_accounts, withdrawal_remaining_spec, AccountMeta, ClosePositionAccounts,
    DecreaseLiquidityAccounts, DecreaseLiquidityArgs, PositionInstruction,
};
use crate::open::{price_range, price_range_result};
use crate::pool::{
    find_position, find_position_spec, find_token, find_token_spec, PersonalPosition, PoolState,
};
use crate::position::{address_of, lemma_address_of, PositionNftTokenInfo};
use crate::slippage::{amount_with_slippage, slippage_result, Slippage};
use crate::tick::{floor_to, tick_array_start_index, TickRange, TICK_ARRAY_SIZE};
use vstd::prelude::*;

verus! {

/// The instructions of a withdrawal: the decrease-liquidity instruction
/// and, where the position is emptied, the close-position instruction that
/// follows it.
pub struct WithdrawPlan {
    pub accounts: DecreaseLiquidityAccounts,
    pub remaining_accounts: Seq<AccountMeta>,
    pub args: DecreaseLiquidityArgs,
    pub close: Option<ClosePositionAccounts>,
}

/// The liquidity that a withdrawal removes: the requested amount, or all
/// of the position's where none is named.
pub open spec fn withdrawn_liquidity(requested: Option<u128>, position: PersonalPosition) -> u128 {
    match requested {
        Some(liquidity) => liquidity,
        None => position.liquidity,
    }
}

/// The plan of a withdrawal from the owner's position in the range between
/// two square-root prices, or the first error on the way to it. The
/// position is the first of `positions` that covers the pool and the
/// aligned range, and its token account the first of `nft_infos` with its
/// mint. The amounts are those of the liquidity removed, bounded from below
/// by the slippage tolerance and less the transfer fee of each mint. The
/// position is closed exactly where all of its liquidity is removed.
pub open spec fn withdraw_plan_spec(
    program: Address,
    payer: Address,
    pool_id: Address,
    bitmap_extension: Address,
    pool: PoolState,
    tick_lower_price_x64: u128,
    tick_upper_price_x64: u128,
    slippage: Slippage,
    fee_0: TransferFeeInfo,
    fee_1: TransferFeeInfo,
    nft_infos: Seq<PositionNftTokenInfo>,
    positions: Seq<PersonalPosition>,
    requested: Option<u128>,
) -> Result<WithdrawPlan, PlanError> {
    match price_range_result(pool.tick_spacing, tick_lower_price_x64, tick_upper_price_x64) {
        Err(e) => Err(e),
        Ok(range) => match find_position_spec(positions, pool_id, range.lower, range.upper) {
            None => Err(PlanError::PositionNotFound),
            Some(position) => match find_token_spec(nft_infos, position.nft_mint) {
                None => Err(PlanError::TokenAccountNotFound),
                Some(token) => match withdrawal_remaining_spec(
                    bitmap_extension,
                    pool.reward_infos@,
                    payer,
                ) {
                    None => Err(PlanError::AddressNotDerivable),
                    Some(remaining_accounts) => withdraw_amounts_spec(
                        program,
                        payer,
                        pool_id,
                        pool,
                        slippage,
                        fee_0,
                        fee_1,
                        range,
                        position,
                        token,
                        remaining_accounts,
                        withdrawn_liquidity(requested, position),
                    ),
                },
            },
        },
    }
}

/// The second half of `withdraw_plan_spec`: from the position found and
/// the liquidity to remove to the plan.
pub open spec fn withdraw_amounts_spec(
    program: Address,
    payer: Address,
    pool_id: Address,
    pool: PoolState,
    slippage: Slippage,
    fee_0: TransferFeeInfo,
    fee_1: TransferFeeInfo,
    range: TickRange,
    position: PersonalPosition,
    token: PositionNftTokenInfo,
    remaining_accounts: Seq<AccountMeta>,
    liquidity: u128,
) -> Result<WithdrawPlan, PlanError> {
    if liquidity > i128::MAX {
        Err(PlanError::Overflow)
    } else {
        match delta_amounts_result(
            pool.tick_current,
            pool.sqrt_price_x64,
            range.lower,
            range.upper,
            (-(liquidity as int)) as i128,
        ) {
            Err(e) => Err(e),
            Ok(amounts) => match slippage_result(amounts.0, slippage) {
                Err(e) => Err(e),
                Ok(bound_0) => match slippage_result(amounts.1, slippage) {
                    Err(e) => Err(e),
                    Ok(bound_1) => match withdrawal_min_spec(fee_0, bound_0) {
                        Err(e) => Err(e),
                        Ok(amount_0_min) => match withdrawal_min_spec(fee_1, bound_1) {
                            Err(e) => Err(e),
                            Ok(amount_1_min) => withdraw_accounts_spec(
                                program,
                                payer,
                                pool_id,
                                pool,
                                fee_0,
                                fee_1,
                                range,
                                position,
                                token,
                                remaining_accounts,
                                (DecreaseLiquidityArgs { liquidity, amount_0_min, amount_1_min }),
                            ),
                        },
                    },
                },
            },
        }
    }
}

/// The last part of `withdraw_plan_spec`: the accounts of the two
/// instructions.
pub open spec fn withdraw_accounts_spec(
    program: Address,
    payer: Address,
    pool_id: Address,
    pool: PoolState,
    fee_0: TransferFeeInfo,
    fee_1: TransferFeeInfo,
    range: TickRange,
    position: PersonalPosition,
    token: PositionNftTokenInfo,
    remaining_accounts: Seq<AccountMeta>,
    args: DecreaseLiquidityArgs,
) -> Result<WithdrawPlan, PlanError> {
    match (
        associated_token_address_spec(payer@, pool.token_mint_0@, fee_0.owner@),
        associated_token_address_spec(payer@, pool.token_mint_1@, fee_1.owner@),
    ) {
        (Some(user_0), Some(user_1)) => match decrease_accounts_spec(
            program,
            payer,
            pool_id,
            pool.token_vault_0,
            pool.token_vault_1,
            pool.token_mint_0,
            pool.token_mint_1,
            position.nft_mint,
            token.key,
            address_of(user_0),
            address_of(user_1),
            range.lower,
            range.upper,
            floor_to(range.lower as int, TICK_ARRAY_SIZE * pool.tick_spacing) as i32,
            floor_to(range.upper as int, TICK_ARRAY_SIZE * pool.tick_spacing) as i32,
        ) {
            None => Err(PlanError::AddressNotDerivable),
            Some(accounts) => if args.liquidity == position.liquidity {
                match close_accounts_spec(
                    program,
                    payer,
                    position.nft_mint,
                    token.key,
                    token.program,
                ) {
                    None => Err(PlanError::AddressNotDerivable),
                    Some(close) => Ok(
                        WithdrawPlan { accounts, remaining_accounts, args, close: Some(close) },
                    ),
                }
            } else {
                Ok(WithdrawPlan { accounts, remaining_accounts, args, close: None })
            },
        },
        _ => Err(PlanError::AddressNotDerivable),
    }
}

/// Whether a list of instructions carries out a plan: the
/// decrease-liquidity instruction, followed at once by the close-position
/// instruction where the plan closes the position, and nothing else.
pub open spec fn carries_out(
    instructions: Seq<PositionInstruction>,
    program: Address,
    plan: WithdrawPlan,
) -> bool {
    &&& instructions.len() == (if plan.close is Some {
        2nat
    } else {
        1nat
    })
    &&& instructions[0].is_decrease(program, plan.accounts, plan.remaining_accounts, plan.args)
    &&& plan.close is Some ==> instructions[1].is_close(program, plan.close->0)
}

/// Plans a withdrawal from the owner's position in the range between two
/// square-root prices. `requested` is the liquidity to remove, all of the
/// position's where it is `None`.
pub fn withdraw(
    raydium_v3_program: &Address,
    payer: &Address,
    pool_id_account: &Address,
    tickarray_bitmap_extension: &Address,
    pool: &PoolState,
    tick_lower_price_x64: u128,
    tick_upper_price_x64: u128,
    slippage: Slippage,
    fee_0: &TransferFeeInfo,
    fee_1: &TransferFeeInfo,
    nft_infos: &Vec<PositionNftTokenInfo>,
    positions: &Vec<PersonalPosition>,
    requested: Option<u128>,
) -> (r: Result<Vec<PositionInstruction>, PlanError>)
    ensures
        match (
            r,
            withdraw_plan_spec(
                *raydium_v3_program,
                *payer,
                *pool_id_account,
                *tickarray_bitmap_extension,
                *pool,
                tick_lower_price_x64,
                tick_upper_price_x64,
                slippage,
                *fee_0,
                *fee_1,
                nft_infos@,
                positions@,
                requested,
            ),
        ) {
            (Ok(instructions), Ok(plan)) => carries_out(instructions@, *raydium_v3_program, plan),
            (Err(e), Err(expected)) => e == expected,
            _ => false,
        },
{
    let range = price_range(pool.tick_spacing, tick_lower_price_x64, tick_upper_price_x64)?;
    let lower_start = tick_array_start_index(range.lower, pool.tick_spacing)?;
    let upper_start = tick_array_start_index(range.upper, pool.tick_spacing)?;
    let position = match find_position(positions, pool_id_account, range.lower, range.upper) {
        Some(p) => p,
        None => {
            return Err(PlanError::PositionNotFound);
        },
    };
    let token = match find_token(nft_infos, &position.nft_mint) {
        Some(t) => t,
        None => {
            return Err(PlanError::TokenAccountNotFound);
        },
    };
    let remaining_accounts = match withdrawal_remaining_accounts(
        tickarray_bitmap_extension,
        &pool.reward_infos,
        payer,
    ) {
        Some(metas) => metas,
        None => {
            return Err(PlanError::AddressNotDerivable);
        },
    };
    let liquidity: u128 = match requested {
        Some(l) => l,
        None => position.liquidity,
    };
    if liquidity > i128::MAX as u128 {
        return Err(PlanError::Overflow);
    }
    let amounts = delta_amounts_signed(
        pool.tick_current,
        pool.sqrt_price_x64,
        range.lower,
        range.upper,
        -(liquidity as i128),
    )?;
    let bound_0 = amount_with_slippage(amounts.0, slippage)?;
    let bound_1 = amount_with_slippage(amounts.1, slippage)?;
    let amount_0_min = withdrawal_min(fee_0, bound_0)?;
    let amount_1_min = withdrawal_min(fee_1, bound_1)?;
    let user_0 = associated_token_address(payer, &pool.token_mint_0, &fee_0.owner);
    let user_1 = associated_token_address(payer, &pool.token_mint_1, &fee_1.owner);
    let (user_0, user_1) = match (user_0, user_1) {
        (Some(a), Some(b)) => (a, b),
        _ => {
            return Err(PlanError::AddressNotDerivable);
        },
    };
    proof {
        lemma_address_of(user_0);
        lemma_address_of(user_1);
    }
    let mut decrease_instr = decrease_liquidity_instr(
        raydium_v3_program,
        payer,
        pool_id_account,
        &pool.token_vault_0,
        &pool.token_vault_1,
        &pool.token_mint_0,
        &pool.token_mint_1,
        &position.nft_mint,
        &token.key,
        &user_0,
        &user_1,
        remaining_accounts,
        liquidity,
        amount_0_min,
        amount_1_min,
        range.lower,
        range.upper,
        lower_start,
        upper_start,
    )?;
    if liquidity == position.liquidity {
        let mut close_position_instr = close_personal_position_instr(
            raydium_v3_program,
            payer,
            &position.nft_mint,
            &token.key,
            &token.program,
        )?;
        decrease_instr.append(&mut close_position_instr);
    }
    Ok(decrease_instr)
}

/// Plans the transaction that removes all liquidity of the owner's
/// position in the range between two square-root prices and closes it.
pub fn close(
    raydium_v3_program: &Address,
    payer: &Address,
    pool_id_account: &Address,
    tickarray_bitmap_extension: &Address,
    pool: &PoolState,
    tick_lower_price_x64: u128,
    tick_upper_price_x64: u128,
    slippage: Slippage,
    fee_0: &TransferFeeInfo,
    fee_1: &TransferFeeInfo,
    nft_infos: &Vec<PositionNftTokenInfo>,
    positions: &Vec<PersonalPosition>,
) -> (r: Result<Vec<PositionInstruction>, PlanError>)
    ensures
        match (
            r,
            withdraw_plan_spec(
                *raydium_v3_program,
                *payer,
                *pool_id_account,
                *tickarray_bitmap_extension,
                *pool,
                tick_lower_price_x64,
                tick_upper_price_x64,
                slippage,
                *fee_0,
                *fee_1,
                nft_infos@,
                positions@,
                None,
            ),
        ) {
            (Ok(instructions), Ok(plan)) => carries_out(instructions@, *raydium_v3_program, plan)
                && plan.close is Some && instructions@.len() == 2,
            (Err(e), Err(expected)) => e == expected,
            _ => false,
        },
{
    withdraw(
        raydium_v3_program,
        payer,
        pool_id_account,
        tickarray_bitmap_extension,
        pool,
        tick_lower_price_x64,
        tick_upper_price_x64,
        slippage,
        fee_0,
        fee_1,
        nft_infos,
        positions,
        None,
    )
}

/// Plans the transaction that removes `liquidity` from the owner's
/// position in the range between two square-root prices. The position is
/// closed where `liquidity` is all it holds, and only then.
pub fn decrease(
    raydium_v3_program: &Address,
    payer: &Address,
    pool_id_account: &Address,
    tickarray_bitmap_extension: &Address,
    pool: &PoolState,
    tick_lower_price_x64: u128,
    tick_upper_price_x64: u128,
    slippage: Slippage,
    fee_0: &TransferFeeInfo,
    fee_1: &TransferFeeInfo,
    nft_infos: &Vec<PositionNftTokenInfo>,
    positions: &Vec<PersonalPosition>,
    liquidity: u128,
) -> (r: Result<Vec<PositionInstruction>, PlanError>)
    ensures
        match (
            r,
            withdraw_plan_spec(
                *raydium_v3_program,
                *payer,
                *pool_id_account,
                *tickarray_bitmap_extension,
                *pool,
                tick_lower_price_x64,
                tick_upper_price_x64,
                slippage,
                *fee_0,
                *fee_1,
                nft_infos@,
                positions@,
                Some(liquidity),
            ),
        ) {
            (Ok(instructions), Ok(plan)) => carries_out(instructions@, *raydium_v3_program, plan),
            (Err(e), Err(expected)) => e == expected,
            _ => false,
        },
{
    withdraw(
        raydium_v3_program,
        payer,
        pool_id_account,
        tickarray_bitmap_extension,
        pool,
        tick_lower_price_x64,
        tick_upper_price_x64,
        slippage,
        fee_0,
        fee_1,
        nft_infos,
        positions,
        Some(liquidity),
    )
}

/// A withdrawal closes the position exactly where it removes all of the
/// position's liquidity: a partial withdrawal never closes.
pub proof fn lemma_close_iff_emptied(
    program: Address,
    payer: Address,
    pool_id: Address,
    bitmap_extension: Address,
    pool: PoolState,
    tick_lower_price_x64: u128,
    tick_upper_price_x64: u128,
    slippage: Slippage,
    fee_0: TransferFeeInfo,
    fee_1: TransferFeeInfo,
    nft_infos: Seq<PositionNftTokenInfo>,
    positions: Seq<PersonalPosition>,
    requested: Option<u128>,
)
    requires
        withdraw_plan_spec(
            program,
            payer,
            pool_id,
            bitmap_extension,
            pool,
            tick_lower_price_x64,
            tick_upper_price_x64,
            slippage,
            fee_0,
            fee_1,
            nft_infos,
            positions,
            requested,
        ) is Ok,
    ensures
        ({
            let plan = withdraw_plan_spec(
                program,
                payer,
                pool_id,
                bitmap_extension,
                pool,
                tick_lower_price_x64,
                tick_upper_price_x64,
                slippage,
                fee_0,
                fee_1,
                nft_infos,
                positions,
                requested,
            )->Ok_0;
            let range = price_range_result(
                pool.tick_spacing,
                tick_lower_price_x64,
                tick_upper_price_x64,
            )->Ok_0;
            let position = find_position_spec(positions, pool_id, range.lower, range.upper)->0;
            &&& find_position_spec(positions, pool_id, range.lower, range.upper) is Some
            &&& plan.args.liquidity == withdrawn_liquidity(requested, position)
            &&& plan.close is Some <==> withdrawn_liquidity(requested, position)
                == position.liquidity
        }),
{
}

} // verus!
